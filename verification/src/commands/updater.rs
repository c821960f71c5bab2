//! Deciding whether a published release is an update, and which of its files
//! suits the machine.

use crate::text::{
    after_first, before_first, chars_of, count_leading, ends_with, find_char, has_suffix,
    parse_u32_between, parsed_u32, without_leading,
};
use vstd::prelude::*;
use vstd::string::*;

verus! {

/// An update that is on offer.
#[derive(Debug, Clone)]
pub struct UpdateInfo {
    pub version: String,
    pub url: String,
    pub release_notes: Option<String>,
    pub published_at: Option<String>,
}

/// A file attached to a release.
#[derive(Debug, Clone)]
pub struct GitHubAsset {
    pub name: String,
    pub browser_download_url: String,
    pub content_type: Option<String>,
}

/// A release as the release feed describes it.
#[derive(Debug, Clone)]
pub struct GitHubRelease {
    pub tag_name: String,
    pub html_url: String,
    pub body: Option<String>,
    pub published_at: Option<String>,
    pub assets: Vec<GitHubAsset>,
}

/// The kind of machine an update is looked for.
#[derive(Debug, Clone, Copy, PartialEq, Eq, Structural)]
pub enum Platform {
    MacOs,
    Linux,
    Windows,
    Other,
}

/// The three numbers of a version: major, minor, patch.
pub struct Version {
    pub major: u32,
    pub minor: u32,
    pub patch: u32,
}

/// The version that a text writes. The text must hold at least two points;
/// the numbers are what stands before the first point, between the first and
/// the second, and after the second up to a third point or a hyphen. `None`
/// where a point is missing or one of the three is no number.
pub open spec fn version_of(v: Seq<char>) -> Option<Version> {
    match after_first(v, '.') {
        Some(after_major) => match after_first(after_major, '.') {
            Some(after_minor) => match (
                parsed_u32(before_first(v, '.')),
                parsed_u32(before_first(after_major, '.')),
                parsed_u32(before_first(before_first(after_minor, '.'), '-')),
            ) {
                (Some(major), Some(minor), Some(patch)) => Some(Version { major, minor, patch }),
                _ => None,
            },
            None => None,
        },
        None => None,
    }
}

/// Whether version `a` is above version `b`: by major number, then minor,
/// then patch.
pub open spec fn version_above(a: Version, b: Version) -> bool {
    a.major > b.major || (a.major == b.major && (a.minor > b.minor || (a.minor == b.minor
        && a.patch > b.patch)))
}

/// Whether `latest` is an update for `current`. A latest version that cannot
/// be read is no update; with a current version that cannot be read, any
/// readable latest version is one.
pub open spec fn version_newer(latest: Seq<char>, current: Seq<char>) -> bool {
    match version_of(latest) {
        Some(l) => match version_of(current) {
            Some(c) => version_above(l, c),
            None => true,
        },
        None => false,
    }
}

/// Reads a version.
pub fn parse_version(v: &str) -> (r: Option<Version>)
    ensures
        r == version_of(v@),
{
    let text = chars_of(v);
    let len = text.len();
    let ghost whole = text@;
    assert(whole.subrange(0, len as int) =~= whole);
    let first = find_char(&text, 0, len, '.');
    if first == len {
        return None;
    }
    let ghost after_major = whole.subrange(first + 1, len as int);
    let second = find_char(&text, first + 1, len, '.');
    if second == len {
        return None;
    }
    let ghost after_minor = whole.subrange(second + 1, len as int);
    assert(after_major.subrange(second - first, after_major.len() as int) =~= after_minor);
    let third = find_char(&text, second + 1, len, '.');
    let ghost patch_part = whole.subrange(second + 1, third as int);
    assert(before_first(after_minor, '.') =~= patch_part);
    let hyphen = find_char(&text, second + 1, third, '-');
    assert(before_first(patch_part, '-') =~= whole.subrange(second + 1, hyphen as int));
    assert(before_first(whole, '.') =~= whole.subrange(0, first as int));
    assert(before_first(after_major, '.') =~= whole.subrange(first + 1, second as int));
    let major = parse_u32_between(&text, 0, first);
    let minor = parse_u32_between(&text, first + 1, second);
    let patch = parse_u32_between(&text, second + 1, hyphen);
    match (major, minor, patch) {
        (Some(major), Some(minor), Some(patch)) => Some(Version { major, minor, patch }),
        _ => None,
    }
}

/// Whether `latest` is a newer version than `current`.
pub fn is_version_newer(latest: &str, current: &str) -> (newer: bool)
    ensures
        newer == version_newer(latest@, current@),
{
    let latest_parts = match parse_version(latest) {
        Some(parts) => parts,
        None => {
            return false;
        },
    };
    let current_parts = match parse_version(current) {
        Some(parts) => parts,
        None => {
            return true;
        },
    };
    if latest_parts.major > current_parts.major {
        return true;
    } else if latest_parts.major < current_parts.major {
        return false;
    }
    if latest_parts.minor > current_parts.minor {
        return true;
    } else if latest_parts.minor < current_parts.minor {
        return false;
    }
    latest_parts.patch > current_parts.patch
}

/// The endings of file names that suit a platform, in the order in which
/// they are tried.
pub open spec fn platform_endings(platform: Platform) -> Seq<Seq<char>> {
    match platform {
        Platform::MacOs => seq![".dmg"@, ".app.tar.gz"@],
        Platform::Linux => seq![".AppImage"@, ".deb"@, ".tar.gz"@],
        Platform::Windows => seq![".msi"@, ".exe"@],
        Platform::Other => Seq::empty(),
    }
}

/// Whether a file name has one of the endings.
pub open spec fn name_suits(name: Seq<char>, endings: Seq<Seq<char>>) -> bool {
    exists|k: int| 0 <= k < endings.len() && has_suffix(name, #[trigger] endings[k])
}

/// Asset `i` is the first whose name suits the platform.
pub open spec fn first_suitable(assets: Seq<GitHubAsset>, platform: Platform, i: int) -> bool {
    &&& 0 <= i < assets.len()
    &&& name_suits(assets[i].name@, platform_endings(platform))
    &&& forall|j: int|
        0 <= j < i ==> !name_suits((#[trigger] assets[j]).name@, platform_endings(platform))
}

/// No asset has a name that suits the platform.
pub open spec fn none_suitable(assets: Seq<GitHubAsset>, platform: Platform) -> bool {
    forall|j: int|
        0 <= j < assets.len() ==> !name_suits(
            (#[trigger] assets[j]).name@,
            platform_endings(platform),
        )
}

/// The endings of file names that suit a platform.
pub fn endings_for(platform: Platform) -> (endings: Vec<&'static str>)
    ensures
        endings@.len() == platform_endings(platform).len(),
        forall|k: int|
            0 <= k < endings@.len() ==> (#[trigger] endings@[k])@ == platform_endings(
                platform,
            )[k],
{
    let mut endings: Vec<&'static str> = Vec::new();
    match platform {
        Platform::MacOs => {
            endings.push(".dmg");
            endings.push(".app.tar.gz");
        },
        Platform::Linux => {
            endings.push(".AppImage");
            endings.push(".deb");
            endings.push(".tar.gz");
        },
        Platform::Windows => {
            endings.push(".msi");
            endings.push(".exe");
        },
        Platform::Other => {},
    }
    endings
}

/// Whether a file name has one of the endings.
fn suits(name: &str, endings: &Vec<&'static str>, platform: Platform) -> (r: bool)
    requires
        endings@.len() == platform_endings(platform).len(),
        forall|k: int|
            0 <= k < endings@.len() ==> (#[trigger] endings@[k])@ == platform_endings(
                platform,
            )[k],
    ensures
        r == name_suits(name@, platform_endings(platform)),
{
    let mut k: usize = 0;
    while k < endings.len()
        invariant
            k <= endings.len(),
            endings@.len() == platform_endings(platform).len(),
            forall|k: int|
                0 <= k < endings@.len() ==> (#[trigger] endings@[k])@ == platform_endings(
                    platform,
                )[k],
            forall|j: int|
                0 <= j < k ==> !has_suffix(name@, #[trigger] platform_endings(platform)[j]),
        decreases endings.len() - k,
    {
        if ends_with(name, endings[k]) {
            assert(has_suffix(name@, platform_endings(platform)[k as int]));
            return true;
        }
        k += 1;
    }
    false
}

/// Finds the file of a release that suits the platform: the download address
/// of the first asset whose name has one of the platform's endings.
pub fn find_platform_asset(assets: &Vec<GitHubAsset>, platform: Platform) -> (found: Option<String>)
    ensures
        match found {
            Some(url) => exists|i: int|
                first_suitable(assets@, platform, i) && url == (
                #[trigger] assets@[i]).browser_download_url,
            None => none_suitable(assets@, platform),
        },
{
    let endings = endings_for(platform);
    let mut i: usize = 0;
    while i < assets.len()
        invariant
            i <= assets.len(),
            endings@.len() == platform_endings(platform).len(),
            forall|k: int|
                0 <= k < endings@.len() ==> (#[trigger] endings@[k])@ == platform_endings(
                    platform,
                )[k],
            forall|j: int|
                0 <= j < i ==> !name_suits(
                    (#[trigger] assets@[j]).name@,
                    platform_endings(platform),
                ),
        decreases assets.len() - i,
    {
        if suits(assets[i].name.as_str(), &endings, platform) {
            assert(first_suitable(assets@, platform, i as int));
            return Some(assets[i].browser_download_url.clone());
        }
        i += 1;
    }
    None
}

/// The version that a release tag names: the tag without the letters `v` it
/// starts with.
pub open spec fn tag_version(tag: Seq<char>) -> Seq<char> {
    without_leading(tag, 'v')
}

/// Decides what to offer when the release feed has answered: nothing where
/// the release is no newer than the current version; otherwise the release,
/// under its version, with the file that suits the platform, or with the
/// page of the release where no file does.
pub fn select_update(current_version: &str, release: GitHubRelease, platform: Platform) -> (offer:
    Option<UpdateInfo>)
    ensures
        match offer {
            Some(info) => {
                &&& version_newer(tag_version(release.tag_name@), current_version@)
                &&& info.version@ == tag_version(release.tag_name@)
                &&& info.release_notes == release.body
                &&& info.published_at == release.published_at
                &&& none_suitable(release.assets@, platform) ==> info.url == release.html_url
                &&& forall|i: int|
                    first_suitable(release.assets@, platform, i) ==> info.url == (
                    #[trigger] release.assets@[i]).browser_download_url
            },
            None => !version_newer(tag_version(release.tag_name@), current_version@),
        },
{
    let tag = chars_of(release.tag_name.as_str());
    let skipped = count_leading(&tag, 'v');
    let latest = release.tag_name.as_str().substring_char(skipped, tag.len());
    assert(latest@ =~= tag_version(release.tag_name@));
    if is_version_newer(latest, current_version) {
        let url = match find_platform_asset(&release.assets, platform) {
            Some(url) => url,
            None => release.html_url,
        };
        Some(
            UpdateInfo {
                version: latest.to_owned(),
                url,
                release_notes: release.body,
                published_at: release.published_at,
            },
        )
    } else {
        None
    }
}

} // verus!
