//! The record of one SDK installation, and the two ways in which one is read:
//! from the fields of a registry key, and from the environment.

use crate::host::{
    text_of, EnvText, EnvTextView, Environment, EnvironmentView, StoredRecord, StoredRecordView,
};
use std::path::PathBuf;
use vstd::prelude::*;

verus! {

/// Information about a Windows SDK installation.
#[derive(Debug, PartialEq, Eq)]
pub struct SdkInfo {
    installation_folder: PathBuf,
    product_name: Option<String>,
    product_version: String,
}

/// The mathematical value of an [`SdkInfo`].
pub ghost struct SdkInfoView {
    pub installation_folder: PathBuf,
    pub product_name: Option<Seq<char>>,
    pub product_version: Seq<char>,
}

impl View for SdkInfo {
    type V = SdkInfoView;

    closed spec fn view(&self) -> SdkInfoView {
        SdkInfoView {
            installation_folder: self.installation_folder,
            product_name: text_of(self.product_name),
            product_version: self.product_version@,
        }
    }
}

impl Clone for SdkInfo {
    /// Returns a record of the same installation.
    fn clone(&self) -> (copy: Self)
        ensures
            copy@ == self@,
    {
        SdkInfo {
            installation_folder: self.installation_folder.clone(),
            product_name: match &self.product_name {
                Some(name) => Some(name.clone()),
                None => None,
            },
            product_version: self.product_version.clone(),
        }
    }
}

/// The value of a record that may be missing.
pub open spec fn found_view(found: Option<SdkInfo>) -> Option<SdkInfoView> {
    match found {
        Some(info) => Some(info@),
        None => None,
    }
}

/// `WindowsSdkVersion` was set, beside `WindowsSdkDir`, to something that is not
/// valid text. Nothing says what version such a value would name.
#[derive(Clone, Copy, Debug, PartialEq, Eq, Structural)]
pub struct MalformedVersion;

/// Whether the three characters `.0\` stand in `text` from position `i` on.
pub open spec fn marker_at(text: Seq<char>, i: int) -> bool {
    &&& 0 <= i
    &&& i + 3 <= text.len()
    &&& text[i] == '.'
    &&& text[i + 1] == '0'
    &&& text[i + 2] == '\\'
}

/// Whether `n` is where the text of `WindowsSdkVersion` is cut: at the first
/// `.0\` in it, or at its end where it holds none.
pub open spec fn is_cut(text: Seq<char>, n: int) -> bool {
    &&& 0 <= n <= text.len()
    &&& (n == text.len() || marker_at(text, n))
    &&& forall|j: int| 0 <= j < n ==> !marker_at(text, j)
}

/// The version that the text of `WindowsSdkVersion` names: what stands before
/// the first `.0\` in it, and all of it where it holds none.
pub open spec fn version_prefix(text: Seq<char>) -> Seq<char> {
    text.subrange(0, choose|n: int| is_cut(text, n))
}

/// A text is cut at one place only.
pub proof fn lemma_cut_unique(text: Seq<char>, n: int, m: int)
    requires
        is_cut(text, n),
        is_cut(text, m),
    ensures
        n == m,
{
    if n < m {
        assert(marker_at(text, n));
    } else if m < n {
        assert(marker_at(text, m));
    }
}

/// A text with no `.0\` before position `from` is cut at `from` or behind it.
proof fn lemma_cut_found_from(text: Seq<char>, from: int)
    requires
        0 <= from <= text.len(),
        forall|j: int| 0 <= j < from ==> !marker_at(text, j),
    ensures
        exists|n: int| is_cut(text, n),
    decreases text.len() - from,
{
    if from == text.len() || marker_at(text, from) {
        assert(is_cut(text, from));
    } else {
        lemma_cut_found_from(text, from + 1);
    }
}

/// The version that a text names is what stands before the place at which
/// the text is cut.
pub proof fn lemma_version_prefix_is_cut(text: Seq<char>, n: int)
    requires
        is_cut(text, n),
    ensures
        version_prefix(text) == text.subrange(0, n),
{
    lemma_cut_unique(text, n, choose|m: int| is_cut(text, m));
}

/// The version that a text names is a prefix of the text that holds no `.0\`
/// and that is followed by one, unless it is the whole text.
pub proof fn lemma_version_prefix_precedes_the_first_marker(text: Seq<char>)
    ensures
        version_prefix(text).len() <= text.len(),
        version_prefix(text) == text.subrange(0, version_prefix(text).len() as int),
        forall|j: int| 0 <= j < version_prefix(text).len() ==> !marker_at(text, j),
        version_prefix(text) == text || marker_at(text, version_prefix(text).len() as int),
{
    lemma_cut_found_from(text, 0);
    let n = choose|n: int| is_cut(text, n);
    if n == text.len() {
        assert(text.subrange(0, n) =~= text);
    }
}

/// A text that holds no `.0\` names itself as the version.
pub proof fn lemma_version_without_marker_is_kept(text: Seq<char>)
    requires
        forall|j: int| 0 <= j < text.len() ==> !marker_at(text, j),
    ensures
        version_prefix(text) == text,
{
    assert(is_cut(text, text.len() as int));
    lemma_version_prefix_is_cut(text, text.len() as int);
    assert(text.subrange(0, text.len() as int) =~= text);
}

/// Whether `.0\` stands in `text` from position `i` on.
fn marker_starts_at(text: &str, len: usize, i: usize) -> (found: bool)
    requires
        len == text@.len(),
        i < len,
    ensures
        found == marker_at(text@, i as int),
{
    len - i >= 3 && text.get_char(i) == '.' && text.get_char(i + 1) == '0' && text.get_char(i + 2)
        == '\\'
}

/// Returns the version that the text of `WindowsSdkVersion` names.
pub fn version_prefix_of(text: &str) -> (prefix: String)
    ensures
        prefix@ == version_prefix(text@),
{
    let len: usize = text.unicode_len();
    let mut i: usize = 0;
    while i < len && !marker_starts_at(text, len, i)
        invariant
            len == text@.len(),
            i <= len,
            forall|j: int| 0 <= j < i ==> !marker_at(text@, j),
        decreases len - i,
    {
        i += 1;
    }
    proof {
        lemma_version_prefix_is_cut(text@, i as int);
    }
    text.substring_char(0, i).to_owned()
}

/// The record that the fields of a registry key make up: they must name a
/// folder and a version, and may name a product.
pub open spec fn decode(record: StoredRecordView) -> Option<SdkInfoView> {
    match (record.installation_folder, record.product_version) {
        (Some(folder), Some(version)) => Some(
            SdkInfoView {
                installation_folder: folder,
                product_name: record.product_name,
                product_version: version,
            },
        ),
        _ => None,
    }
}

/// What the environment says of an SDK installation, if both variables are
/// set: the folder as it stands, no product name, and the version cut at the
/// first `.0\`.
pub open spec fn env_record(env: EnvironmentView) -> Result<Option<SdkInfoView>, MalformedVersion> {
    match (env.sdk_dir, env.sdk_version) {
        (Some(folder), EnvTextView::Text(text)) => Ok(
            Some(
                SdkInfoView {
                    installation_folder: folder,
                    product_name: None,
                    product_version: version_prefix(text),
                },
            ),
        ),
        (Some(_), EnvTextView::Malformed) => Err(MalformedVersion),
        _ => Ok(None),
    }
}

/// The value of what a query of the environment gave.
pub open spec fn env_outcome_view(outcome: Result<Option<SdkInfo>, MalformedVersion>) -> Result<
    Option<SdkInfoView>,
    MalformedVersion,
> {
    match outcome {
        Ok(found) => Ok(found_view(found)),
        Err(e) => Err(e),
    }
}

impl SdkInfo {
    /// Makes the record of an installation.
    pub fn new(
        installation_folder: PathBuf,
        product_name: Option<String>,
        product_version: String,
    ) -> (info: SdkInfo)
        ensures
            info@ == (SdkInfoView {
                installation_folder,
                product_name: text_of(product_name),
                product_version: product_version@,
            }),
    {
        SdkInfo { installation_folder, product_name, product_version }
    }

    /// Reads the fields of a registry key as a record. A key that lacks the
    /// folder or the version holds no record: it may be what an incomplete
    /// removal has left behind.
    pub fn decode(record: StoredRecord) -> (found: Option<SdkInfo>)
        ensures
            found_view(found) == decode(record@),
    {
        match (record.installation_folder, record.product_version) {
            (Some(folder), Some(version)) => Some(
                SdkInfo {
                    installation_folder: folder,
                    product_name: record.product_name,
                    product_version: version,
                },
            ),
            _ => None,
        }
    }

    /// Returns installation information for a Windows SDK from environment
    /// variables, if present.
    pub fn query_env(env: Environment) -> (outcome: Result<Option<SdkInfo>, MalformedVersion>)
        ensures
            env_outcome_view(outcome) == env_record(env@),
    {
        match env.sdk_dir {
            Some(folder) => match env.sdk_version {
                EnvText::Text(text) => Ok(
                    Some(
                        SdkInfo {
                            installation_folder: folder,
                            product_name: None,
                            product_version: version_prefix_of(text.as_str()),
                        },
                    ),
                ),
                EnvText::Malformed => Err(MalformedVersion),
                EnvText::Unset => Ok(None),
            },
            None => Ok(None),
        }
    }

    /// Returns the filesystem path to where a Windows SDK instance is installed.
    pub fn installation_folder(&self) -> (folder: &PathBuf)
        ensures
            *folder == self@.installation_folder,
    {
        &self.installation_folder
    }

    /// Returns the human-readable name of a Windows SDK instance.
    pub fn product_name(&self) -> (name: Option<&str>)
        ensures
            match name {
                Some(s) => self@.product_name == Some(s@),
                None => self@.product_name is None,
            },
    {
        match &self.product_name {
            Some(s) => Some(s.as_str()),
            None => None,
        }
    }

    /// Returns the version number of a Windows SDK instance.
    pub fn product_version(&self) -> (version: &str)
        ensures
            version@ == self@.product_version,
    {
        self.product_version.as_str()
    }
}

} // verus!
