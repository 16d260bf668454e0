//! Which release an update installs, and from where.

use crate::text;
use crate::text::{contains, matches_at, trim_start_matches};
use vstd::prelude::*;

verus! {

/// The name of the program in the names of its releases.
pub const BINARY_NAME: &'static str = "daily";

/// `serde_json::Error`, carried through and never inspected.
#[verifier::external_type_specification]
#[verifier::external_body]
pub struct ExJsonError(serde_json::Error);

/// Why an update cannot go on.
#[derive(Debug, Clone, Copy, PartialEq, Eq)]
pub enum UpdateError {
    /// There is no release for the operating system.
    UnsupportedOs,
    /// There is no release for the processor.
    UnsupportedArch,
    /// The answer of the release service is no JSON.
    InvalidResponse,
    /// The answer of the release service names no version.
    MissingTag,
    /// The project has published no release.
    NoReleases,
    /// The release service could not be asked.
    FetchFailed,
}

/// What `serde_json` reads from a text as the string member `key` of a JSON object:
/// nothing at all where the text is no JSON, no member where the value read is no object,
/// has no such member, or has one that is no string.
pub uninterp spec fn json_member_text(body: Seq<char>, key: Seq<char>) -> Option<Option<Seq<char>>>;

/// A version with the `v` that release names begin with.
pub open spec fn normalized_version(version: Seq<char>) -> Seq<char> {
    if matches_at(version, "v"@, 0) {
        version
    } else {
        "v"@ + version
    }
}

/// The name of a platform in the names of the releases.
pub open spec fn platform_name(os: Seq<char>, arch: Seq<char>) -> Result<Seq<char>, UpdateError> {
    let os_name = if os == "linux"@ {
        Some("linux"@)
    } else if os == "macos"@ {
        Some("darwin"@)
    } else if os == "windows"@ {
        Some("windows"@)
    } else {
        None
    };
    let arch_name = if arch == "x86_64"@ {
        Some("amd64"@)
    } else if arch == "aarch64"@ {
        Some("arm64"@)
    } else {
        None
    };
    match os_name {
        Some(o) => match arch_name {
            Some(a) => Ok(o + "-"@ + a),
            None => Err(UpdateError::UnsupportedArch),
        },
        None => Err(UpdateError::UnsupportedOs),
    }
}

/// The name of the file of a release for a platform.
pub open spec fn artifact_of(platform: Seq<char>) -> Seq<char> {
    if matches_at(platform, "windows"@, 0) {
        BINARY_NAME@ + "-"@ + platform + ".exe"@
    } else {
        BINARY_NAME@ + "-"@ + platform
    }
}

/// Where the file of a release is downloaded from.
pub open spec fn download_url_of(repo: Seq<char>, version: Seq<char>, artifact: Seq<char>) -> Seq<
    char,
> {
    "https://github.com/"@ + repo + "/releases/download/"@ + version + "/"@ + artifact
}

/// Where the latest release of a project is asked for.
pub open spec fn latest_release_url_of(repo: Seq<char>) -> Seq<char> {
    "https://api.github.com/repos/"@ + repo + "/releases/latest"@
}

/// `serde_json::from_str` into a `Value`, then `Value::get` with the key and
/// `Value::as_str` on what it finds; the outcome is only named.
#[verifier::external_body]
fn read_json_member(body: &str, key: &str) -> (r: Result<Option<String>, serde_json::Error>)
    ensures
        r is Ok <==> json_member_text(body@, key@) is Some,
        r matches Ok(found) ==> json_member_text(body@, key@) == Some(
            match found {
                Some(s) => Some(s@),
                None => None,
            },
        ),
{
    let value: serde_json::Value = serde_json::from_str(body)?;
    Ok(value.get(key).and_then(|member| member.as_str()).map(String::from))
}

/// A version with the `v` that release names begin with.
pub fn normalize_version(version: &str) -> (r: String)
    ensures
        r@ == normalized_version(version@),
{
    let chars = text::chars_of(version);
    if text::starts_with(&chars, "v") {
        String::from_str(version)
    } else {
        let mut out: Vec<char> = Vec::new();
        text::push_str(&mut out, "v");
        text::push_all(&mut out, &chars);
        text::string_of(&out)
    }
}

/// Whether the wanted release is the version that runs.
pub fn is_up_to_date(target_version: &str, current_version: &str) -> (r: bool)
    ensures
        r == (trim_start_matches(target_version@, "v"@) == current_version@),
{
    let chars = text::chars_of(target_version);
    let bare = text::trimmed_start_matches(&chars, "v");
    text::same_str(&bare, current_version)
}

/// The name of a platform in the names of the releases, given the names that the compiler
/// has for the operating system and the processor.
pub fn detect_platform(os: &str, arch: &str) -> (r: Result<String, UpdateError>)
    ensures
        r is Ok <==> platform_name(os@, arch@) is Ok,
        r matches Ok(name) ==> platform_name(os@, arch@) == Ok::<Seq<char>, UpdateError>(name@),
        r matches Err(e) ==> platform_name(os@, arch@) == Err::<Seq<char>, UpdateError>(e),
{
    let o = text::chars_of(os);
    let a = text::chars_of(arch);
    let os_name = if text::same_str(&o, "linux") {
        "linux"
    } else if text::same_str(&o, "macos") {
        "darwin"
    } else if text::same_str(&o, "windows") {
        "windows"
    } else {
        return Err(UpdateError::UnsupportedOs);
    };
    let arch_name = if text::same_str(&a, "x86_64") {
        "amd64"
    } else if text::same_str(&a, "aarch64") {
        "arm64"
    } else {
        return Err(UpdateError::UnsupportedArch);
    };
    let mut out: Vec<char> = Vec::new();
    text::push_str(&mut out, os_name);
    text::push_str(&mut out, "-");
    text::push_str(&mut out, arch_name);
    Ok(text::string_of(&out))
}

/// The name of the file of a release for a platform.
pub fn artifact_name(platform: &str) -> (r: String)
    ensures
        r@ == artifact_of(platform@),
{
    let p = text::chars_of(platform);
    let mut out: Vec<char> = Vec::new();
    text::push_str(&mut out, BINARY_NAME);
    text::push_str(&mut out, "-");
    text::push_all(&mut out, &p);
    if text::starts_with(&p, "windows") {
        text::push_str(&mut out, ".exe");
    }
    text::string_of(&out)
}

/// Where the file of a release is downloaded from.
pub fn download_url(repo: &str, version: &str, artifact: &str) -> (r: String)
    ensures
        r@ == download_url_of(repo@, version@, artifact@),
{
    let mut out: Vec<char> = Vec::new();
    text::push_str(&mut out, "https://github.com/");
    text::push_str(&mut out, repo);
    text::push_str(&mut out, "/releases/download/");
    text::push_str(&mut out, version);
    text::push_str(&mut out, "/");
    text::push_str(&mut out, artifact);
    text::string_of(&out)
}

/// Where the latest release of a project is asked for.
pub fn latest_release_url(repo: &str) -> (r: String)
    ensures
        r@ == latest_release_url_of(repo@),
{
    let mut out: Vec<char> = Vec::new();
    text::push_str(&mut out, "https://api.github.com/repos/");
    text::push_str(&mut out, repo);
    text::push_str(&mut out, "/releases/latest");
    text::string_of(&out)
}

/// The version that a reading of the release service's answer names.
pub fn version_from(reading: Result<Option<String>, serde_json::Error>) -> (r: Result<
    String,
    UpdateError,
>)
    ensures
        match reading {
            Ok(Some(tag)) => r matches Ok(v) && v@ == tag@,
            Ok(None) => r == Err::<String, UpdateError>(UpdateError::MissingTag),
            Err(_) => r == Err::<String, UpdateError>(UpdateError::InvalidResponse),
        },
{
    match reading {
        Ok(Some(tag)) => Ok(tag),
        Ok(None) => Err(UpdateError::MissingTag),
        Err(_) => Err(UpdateError::InvalidResponse),
    }
}

/// The version that the answer of the release service names as the latest: the string
/// member `tag_name` of the JSON object that the answer is.
pub fn get_latest_version(body: &str) -> (r: Result<String, UpdateError>)
    ensures
        match json_member_text(body@, "tag_name"@) {
            Some(Some(tag)) => r matches Ok(v) && v@ == tag,
            Some(None) => r == Err::<String, UpdateError>(UpdateError::MissingTag),
            None => r == Err::<String, UpdateError>(UpdateError::InvalidResponse),
        },
{
    version_from(read_json_member(body, "tag_name"))
}

/// Why the release service gave no answer, as far as its words tell: that there is no
/// release where they speak of a 404, else that it could not be asked.
pub fn fetch_error(stderr: &str) -> (r: UpdateError)
    ensures
        r == (if contains(stderr@, "404"@) {
            UpdateError::NoReleases
        } else {
            UpdateError::FetchFailed
        }),
{
    let s = text::chars_of(stderr);
    if text::contains_str(&s, "404") {
        UpdateError::NoReleases
    } else {
        UpdateError::FetchFailed
    }
}

} // verus!
