//! Deciding whether a newer release of the overlay is offered.

use crate::json::{as_array, as_str, json_document, json_tree, member, parse_document, JsonTree};
use crate::source::Platform;
use crate::text::{contains, contains_text, lemma_filter_take_step, to_chars};
use serde_json::Value;
use vstd::prelude::*;
use vstd::string::*;

verus! {

/// Whether every character is a decimal digit.
pub open spec fn all_digits(text: Seq<char>) -> bool {
    forall|i: int| 0 <= i < text.len() ==> '0' <= #[trigger] text[i] <= '9'
}

/// The number that decimal digits write.
pub open spec fn decimal(digits: Seq<char>) -> int
    decreases digits.len(),
{
    if digits.len() == 0 {
        0
    } else {
        decimal(digits.drop_last()) * 10 + (digits.last() as int - '0' as int)
    }
}

/// The 32-bit number that a text writes: decimal digits, at least one, after
/// at most one sign. `None` for any other text and for a number out of range.
pub open spec fn parsed_i32(text: Seq<char>) -> Option<int> {
    let digits = digits_of(text);
    let value = if has_sign(text) && text[0] == '-' {
        -decimal(digits)
    } else {
        decimal(digits)
    };
    if digits.len() > 0 && all_digits(digits) && i32::MIN <= value <= i32::MAX {
        Some(value)
    } else {
        None
    }
}

/// Whether a text starts with a sign.
pub open spec fn has_sign(text: Seq<char>) -> bool {
    text.len() > 0 && (text[0] == '-' || text[0] == '+')
}

/// The text without the sign at its start.
pub open spec fn digits_of(text: Seq<char>) -> Seq<char> {
    if has_sign(text) {
        text.skip(1)
    } else {
        text
    }
}

/// The version of this program as a number: its text without the dots.
pub open spec fn current_number(version: Seq<char>) -> Option<int> {
    parsed_i32(version.filter(|c: char| c != '.'))
}

/// The version of a release as a number: its tag without the dots and the
/// letter `V`.
pub open spec fn release_number(tag: Seq<char>) -> Option<int> {
    parsed_i32(tag.filter(|c: char| c != '.' && c != 'V'))
}

/// The word by which the file of a release for a system is known.
pub open spec fn platform_word(platform: Platform) -> Seq<char> {
    match platform {
        Platform::Windows => "Windows"@,
        Platform::Linux => "Linux"@,
    }
}

/// The address of the first file of a release whose name holds `word`; no
/// address where there is no such file. A file without a name or an address
/// is passed over.
pub open spec fn asset_url(assets: Seq<JsonTree>, word: Seq<char>) -> Seq<char>
    decreases assets.len(),
{
    if assets.len() == 0 {
        Seq::empty()
    } else {
        let name = assets[0].member("name"@).as_text();
        let url = assets[0].member("browser_download_url"@).as_text();
        if name is Some && url is Some && contains_text(name->0, word) {
            url->0
        } else {
            asset_url(assets.drop_first(), word)
        }
    }
}

/// Why no release is offered.
#[derive(Debug, Clone, Copy, PartialEq, Eq, Structural)]
pub enum ReleaseError {
    /// The answer is no JSON document.
    NotJson,
    /// The answer names no release.
    NoTag,
    /// The version of this program is no number.
    BadCurrentVersion,
    /// The version of the release is no number.
    BadReleaseVersion,
    /// The release is not newer than this program.
    UpToDate,
}

/// The files of a release: the items of its `assets`, none where that is no
/// array.
pub open spec fn assets_of(document: JsonTree) -> Seq<JsonTree> {
    match document.member("assets"@) {
        JsonTree::Array(items) => items,
        _ => Seq::empty(),
    }
}

/// The offer that the document of the latest release makes to a program of
/// the version `current`: the address of the file for the system and the tag
/// of the release, if the release is newer.
pub open spec fn release_offer(current: Seq<char>, document: JsonTree, platform: Platform)
    -> Result<(Seq<char>, Seq<char>), ReleaseError> {
    match document.member("tag_name"@).as_text() {
        None => Err(ReleaseError::NoTag),
        Some(tag) => match current_number(current) {
            None => Err(ReleaseError::BadCurrentVersion),
            Some(ours) => match release_number(tag) {
                None => Err(ReleaseError::BadReleaseVersion),
                Some(theirs) => if theirs > ours {
                    Ok((asset_url(assets_of(document), platform_word(platform)), tag))
                } else {
                    Err(ReleaseError::UpToDate)
                },
            },
        },
    }
}

/// The offer that the text of an answer about the latest release makes.
pub open spec fn body_offer(current: Seq<char>, body: Seq<char>, platform: Platform) -> Result<
    (Seq<char>, Seq<char>),
    ReleaseError,
> {
    match json_document(body) {
        Some(document) => release_offer(current, document, platform),
        None => Err(ReleaseError::NotJson),
    }
}

/// Whether `outcome` is the offer or the refusal that `model` prescribes.
pub open spec fn offer_agrees(
    outcome: Result<(String, String), ReleaseError>,
    model: Result<(Seq<char>, Seq<char>), ReleaseError>,
) -> bool {
    match outcome {
        Ok(offer) => model == Ok::<(Seq<char>, Seq<char>), ReleaseError>((offer.0@, offer.1@)),
        Err(reason) => model == Err::<(Seq<char>, Seq<char>), ReleaseError>(reason),
    }
}

/// More digits write no smaller number.
proof fn lemma_decimal_grows(digits: Seq<char>, k: int)
    requires
        all_digits(digits),
        0 <= k <= digits.len(),
    ensures
        0 <= decimal(digits.take(k)) <= decimal(digits),
    decreases digits.len(),
{
    if digits.len() == 0 {
        assert(digits.take(k) =~= digits);
    } else if k == digits.len() {
        assert(digits.take(k) =~= digits);
        lemma_decimal_grows(digits.drop_last(), k - 1);
        assert(digits.drop_last().take(k - 1) =~= digits.drop_last());
        assert('0' <= digits[digits.len() - 1] <= '9');
    } else {
        lemma_decimal_grows(digits.drop_last(), k);
        assert(digits.drop_last().take(k) =~= digits.take(k));
        assert('0' <= digits[digits.len() - 1] <= '9');
    }
}

/// The 32-bit number that a text writes.
pub fn parse_i32(text: &Vec<char>) -> (number: Option<i32>)
    ensures
        match number {
            Some(n) => parsed_i32(text@) == Some(n as int),
            None => parsed_i32(text@) is None,
        },
{
    let signed = text.len() > 0 && (text[0] == '-' || text[0] == '+');
    let negative = signed && text[0] == '-';
    let start: usize = if signed {
        1
    } else {
        0
    };
    if text.len() == start {
        return None;
    }
    let ghost digits = digits_of(text@);
    assert(text@.skip(0) =~= text@);
    let mut value: i64 = 0;
    let mut i: usize = start;
    while i < text.len()
        invariant
            start <= i <= text.len(),
            start <= 1,
            digits == digits_of(text@),
            digits == text@.skip(start as int),
            all_digits(digits.take(i - start)),
            value == decimal(digits.take(i - start)),
            0 <= value <= 2147483648,
        decreases text.len() - i,
    {
        let c = text[i];
        let ghost k = i - start;
        proof {
            assert(digits.take(k + 1).drop_last() =~= digits.take(k));
            assert(digits.take(k + 1).last() == c);
        }
        if !('0' <= c && c <= '9') {
            assert(digits[k] == c);
            return None;
        }
        value = value * 10 + (c as u32 - '0' as u32) as i64;
        assert(all_digits(digits.take(k + 1))) by {
            assert forall|j: int| 0 <= j < k + 1 implies '0' <= #[trigger] digits.take(k + 1)[j]
                <= '9' by {
                if j < k {
                    assert(digits.take(k)[j] == digits.take(k + 1)[j]);
                }
            }
        }
        if value > 2147483648 {
            proof {
                if all_digits(digits) {
                    lemma_decimal_grows(digits, k + 1);
                }
            }
            return None;
        }
        i += 1;
    }
    assert(digits.take(i - start) =~= digits);
    if negative {
        Some((-value) as i32)
    } else if value > 2147483647 {
        None
    } else {
        Some(value as i32)
    }
}

fn current_version_number(version: &str) -> (number: Option<i32>)
    ensures
        match number {
            Some(n) => current_number(version@) == Some(n as int),
            None => current_number(version@) is None,
        },
{
    let chars = to_chars(version);
    let mut kept: Vec<char> = Vec::new();
    let mut i: usize = 0;
    while i < chars.len()
        invariant
            i <= chars.len(),
            chars@ == version@,
            kept@ == version@.take(i as int).filter(|c: char| c != '.'),
        decreases chars.len() - i,
    {
        proof {
            lemma_filter_take_step(version@, |c: char| c != '.', i as int);
        }
        if chars[i] != '.' {
            kept.push(chars[i]);
        }
        i += 1;
    }
    assert(version@.take(i as int) =~= version@);
    parse_i32(&kept)
}

fn release_version_number(tag: &str) -> (number: Option<i32>)
    ensures
        match number {
            Some(n) => release_number(tag@) == Some(n as int),
            None => release_number(tag@) is None,
        },
{
    let chars = to_chars(tag);
    let mut kept: Vec<char> = Vec::new();
    let mut i: usize = 0;
    while i < chars.len()
        invariant
            i <= chars.len(),
            chars@ == tag@,
            kept@ == tag@.take(i as int).filter(|c: char| c != '.' && c != 'V'),
        decreases chars.len() - i,
    {
        proof {
            lemma_filter_take_step(tag@, |c: char| c != '.' && c != 'V', i as int);
        }
        if chars[i] != '.' && chars[i] != 'V' {
            kept.push(chars[i]);
        }
        i += 1;
    }
    assert(tag@.take(i as int) =~= tag@);
    parse_i32(&kept)
}

fn platform_name(platform: Platform) -> (word: &'static str)
    ensures
        word@ == platform_word(platform),
{
    match platform {
        Platform::Windows => "Windows",
        Platform::Linux => "Linux",
    }
}

/// The trees of the items of a list.
pub open spec fn trees_of(items: Seq<Value>) -> Seq<JsonTree> {
    items.map_values(|item: Value| json_tree(item))
}

/// The address of the first file of a release whose name holds `word`.
pub fn find_asset_url(assets: &Vec<Value>, word: &str) -> (url: String)
    ensures
        url@ == asset_url(trees_of(assets@), word@),
{
    let ghost trees = trees_of(assets@);
    let mut i: usize = 0;
    assert(trees.skip(0) =~= trees);
    while i < assets.len()
        invariant
            i <= assets.len(),
            trees == trees_of(assets@),
            asset_url(trees, word@) == asset_url(trees.skip(i as int), word@),
        decreases assets.len() - i,
    {
        proof {
            assert(trees.skip(i as int)[0] == json_tree(assets@[i as int]));
            assert(trees.skip(i as int).drop_first() =~= trees.skip(i + 1));
        }
        match (as_str(member(&assets[i], "name")), as_str(member(&assets[i], "browser_download_url"))) {
            (Some(name), Some(url)) => {
                if contains(name, word) {
                    return String::from_str(url);
                }
            },
            _ => {},
        }
        i += 1;
    }
    String::new()
}

/// The offer that the document of the latest release makes to a program of
/// the version `current_version`.
pub fn offer_of_document(current_version: &str, document: &Value, platform: Platform) -> (outcome:
    Result<(String, String), ReleaseError>)
    ensures
        offer_agrees(outcome, release_offer(current_version@, json_tree(*document), platform)),
{
    let tag = match as_str(member(document, "tag_name")) {
        Some(tag) => tag,
        None => {
            return Err(ReleaseError::NoTag);
        },
    };
    let ours = match current_version_number(current_version) {
        Some(n) => n,
        None => {
            return Err(ReleaseError::BadCurrentVersion);
        },
    };
    let theirs = match release_version_number(tag) {
        Some(n) => n,
        None => {
            return Err(ReleaseError::BadReleaseVersion);
        },
    };
    if theirs > ours {
        let url = match as_array(member(document, "assets")) {
            Some(assets) => find_asset_url(assets, platform_name(platform)),
            None => String::new(),
        };
        Ok((url, String::from_str(tag)))
    } else {
        Err(ReleaseError::UpToDate)
    }
}

/// The offer that the text of an answer about the latest release makes to a
/// program of the version `current_version`.
pub fn check_updates(current_version: &str, body: &str, platform: Platform) -> (outcome: Result<
    (String, String),
    ReleaseError,
>)
    ensures
        offer_agrees(outcome, body_offer(current_version@, body@, platform)),
{
    match parse_document(body) {
        Some(document) => offer_of_document(current_version, &document, platform),
        None => Err(ReleaseError::NotJson),
    }
}

impl ReleaseError {
    /// The reason in words.
    pub open spec fn wording(self) -> Seq<char> {
        match self {
            ReleaseError::NotJson => "Failed to read json."@,
            ReleaseError::NoTag => "The latest release has no tag."@,
            ReleaseError::BadCurrentVersion => "Failed to parse current version number."@,
            ReleaseError::BadReleaseVersion => "Failed to parse latest version number."@,
            ReleaseError::UpToDate => "KC-Overlay está atualizado."@,
        }
    }

    /// The reason in words.
    pub fn message(&self) -> (text: &'static str)
        ensures
            text@ == self.wording(),
    {
        match self {
            ReleaseError::NotJson => "Failed to read json.",
            ReleaseError::NoTag => "The latest release has no tag.",
            ReleaseError::BadCurrentVersion => "Failed to parse current version number.",
            ReleaseError::BadReleaseVersion => "Failed to parse latest version number.",
            ReleaseError::UpToDate => "KC-Overlay está atualizado.",
        }
    }
}

} // verus!
