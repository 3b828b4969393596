//! Release check for the in-app updater: reading the version out of a
//! GitHub release tag, deciding whether the latest release is a usable
//! update, and checking a downloaded binary against its published SHA-256.
//! The HTTP requests themselves are made by the application.
//!
//! The release workflow uploads two assets per tag: `ASSET_NAME`, the
//! binary, and `SHA_NAME`, a text file with its SHA-256.

use crate::text::{
    chars_equal, chars_of, decimal, push_chars, push_decimal, push_str, string_of, ws_split, ws_tokens,
};
use sha2::Digest;
use vstd::prelude::*;

verus! {

/// A semantic version as `semver::Version` holds it: the three numbers,
/// then the pre-release and build-metadata texts (empty when absent).
#[derive(Debug, Clone, PartialEq, Eq)]
pub struct SemVer {
    pub major: u64,
    pub minor: u64,
    pub patch: u64,
    pub pre: String,
    pub build: String,
}

impl SemVer {
    /// The five parts as plain values.
    pub open spec fn parts(self) -> (u64, u64, u64, Seq<char>, Seq<char>) {
        (self.major, self.minor, self.patch, self.pre@, self.build@)
    }
}

pub const OWNER: &'static str = "mxyyz";

pub const REPO: &'static str = "kindle-chess";

pub const ASSET_NAME: &'static str = "kindle-chess-armv7-musl";

pub const SHA_NAME: &'static str = "kindle-chess-armv7-musl.sha256";

/// The endpoint of the latest release of `OWNER/REPO`.
pub fn latest_release_url() -> (r: String)
    ensures
        r@ == "https://api.github.com/repos/"@ + OWNER@ + "/"@ + REPO@ + "/releases/latest"@,
{
    let mut u = string_of("https://api.github.com/repos/");
    push_str(&mut u, OWNER);
    push_str(&mut u, "/");
    push_str(&mut u, REPO);
    push_str(&mut u, "/releases/latest");
    u
}

/// The User-Agent sent to GitHub, which refuses requests without one.
pub fn user_agent(version: &str) -> (r: String)
    ensures
        r@ == "kindle-hello/"@ + version@,
{
    let mut u = string_of("kindle-hello/");
    push_str(&mut u, version);
    u
}

pub struct Release {
    pub tag_name: String,
    pub name: Option<String>,
    pub body: Option<String>,
    pub assets: Vec<ReleaseAsset>,
}

pub struct ReleaseAsset {
    pub name: String,
    pub browser_download_url: String,
    pub size: u64,
}

/// A release strictly newer than the running binary, with both assets.
/// `current` and `latest` are the two versions as `semver` prints them.
#[derive(Debug, Clone)]
pub struct UpdateInfo {
    pub current: String,
    pub latest: String,
    pub release_name: String,
    pub release_notes: String,
    pub asset_url: String,
    pub sha256_url: String,
    pub asset_size: u64,
}

/// Whether `semver::Version::parse` accepts `s`.
pub uninterp spec fn semver_parses(s: Seq<char>) -> bool;

/// The parts of the version `semver::Version::parse` reads from `s`:
/// major, minor, patch, pre-release text and build-metadata text.
pub uninterp spec fn semver_parts(s: Seq<char>) -> (u64, u64, u64, Seq<char>, Seq<char>);

/// `semver::Version::parse`, its fields taken over as plain values; `None`
/// where it returns an error.
#[verifier::external_body]
fn parse_semver(s: &str) -> (r: Option<SemVer>)
    ensures
        r is Some <==> semver_parses(s@),
        r matches Some(v) ==> v.parts() == semver_parts(s@),
{
    match semver::Version::parse(s) {
        Ok(v) => Some(
            SemVer {
                major: v.major,
                minor: v.minor,
                patch: v.patch,
                pre: v.pre.as_str().to_string(),
                build: v.build.as_str().to_string(),
            },
        ),
        Err(_) => None,
    }
}

/// Whether version `a` is at most version `b`, both texts read as
/// `semver::Version`s and compared in its order (major, minor, patch, then
/// pre-release and build metadata).
pub uninterp spec fn semver_le(a: Seq<char>, b: Seq<char>) -> bool;

/// `semver::Version::parse` of both texts, compared with `<=`.
#[verifier::external_body]
fn semver_le_text(a: &str, b: &str) -> (r: bool)
    requires
        semver_parses(a@),
        semver_parses(b@),
    ensures
        r == semver_le(a@, b@),
{
    match (semver::Version::parse(a), semver::Version::parse(b)) {
        (Ok(x), Ok(y)) => x <= y,
        _ => false,
    }
}

/// The text `semver` prints for a version with these parts:
/// `major.minor.patch`, then `-pre` and `+build` where they are not empty.
pub open spec fn version_text(p: (u64, u64, u64, Seq<char>, Seq<char>)) -> Seq<char> {
    let core = decimal(p.0 as nat) + "."@ + decimal(p.1 as nat) + "."@ + decimal(p.2 as nat);
    let with_pre = if p.3.len() > 0 {
        core + "-"@ + p.3
    } else {
        core
    };
    if p.4.len() > 0 {
        with_pre + "+"@ + p.4
    } else {
        with_pre
    }
}

/// The text `semver` prints for the version that text `s` parses to.
pub open spec fn semver_display(s: Seq<char>) -> Seq<char> {
    version_text(semver_parts(s))
}

impl SemVer {
    /// The version as `semver` prints it (see `version_text`).
    pub fn display(&self) -> (r: String)
        ensures
            r@ == version_text(self.parts()),
    {
        let mut t = String::new();
        push_decimal(&mut t, self.major);
        push_str(&mut t, ".");
        push_decimal(&mut t, self.minor);
        push_str(&mut t, ".");
        push_decimal(&mut t, self.patch);
        if chars_of(self.pre.as_str()).len() > 0 {
            push_str(&mut t, "-");
            push_str(&mut t, self.pre.as_str());
        }
        if chars_of(self.build.as_str()).len() > 0 {
            push_str(&mut t, "+");
            push_str(&mut t, self.build.as_str());
        }
        assert(t@ =~= version_text(self.parts()));
        t
    }
}

/// `s` without all its leading `c`s (`str::trim_start_matches` with a char).
pub open spec fn strip_chars(s: Seq<char>, c: char) -> Seq<char>
    decreases s.len(),
{
    if s.len() > 0 && s[0] == c {
        strip_chars(s.drop_first(), c)
    } else {
        s
    }
}

/// `s` without all leading copies of `p` (`str::trim_start_matches` with a
/// non-empty string).
pub open spec fn strip_prefixes(s: Seq<char>, p: Seq<char>) -> Seq<char>
    decreases s.len(),
{
    if p.len() > 0 && s.len() >= p.len() && s.subrange(0, p.len() as int) == p {
        strip_prefixes(s.skip(p.len() as int), p)
    } else {
        s
    }
}

/// The version text of a tag: `v0.2.0`, `0.2.0` and `release-0.2.0` all
/// give `0.2.0`.
pub open spec fn tag_version_text(tag: Seq<char>) -> Seq<char> {
    strip_prefixes(strip_chars(tag, 'v'), "release-"@)
}

fn strip_leading_char(s: &Vec<char>, c: char) -> (r: Vec<char>)
    ensures
        r@ == strip_chars(s@, c),
{
    let n = s.len();
    let mut i: usize = 0;
    assert(s@.skip(0) =~= s@);
    while i < n && s[i] == c
        invariant
            n == s.len(),
            i <= n,
            strip_chars(s@, c) == strip_chars(s@.skip(i as int), c),
        decreases n - i,
    {
        assert(s@.skip(i as int).drop_first() =~= s@.skip(i + 1));
        i += 1;
    }
    let mut r: Vec<char> = Vec::new();
    let mut j = i;
    while j < n
        invariant
            n == s.len(),
            i <= j <= n,
            r@ == s@.subrange(i as int, j as int),
        decreases n - j,
    {
        r.push(s[j]);
        assert(s@.subrange(i as int, j + 1) =~= s@.subrange(i as int, j as int).push(s@[j as int]));
        j += 1;
    }
    assert(r@ =~= s@.skip(i as int));
    r
}

fn strip_leading_prefix(s: &Vec<char>, p: &Vec<char>) -> (r: Vec<char>)
    requires
        p.len() > 0,
    ensures
        r@ == strip_prefixes(s@, p@),
{
    let n = s.len();
    let m = p.len();
    let mut i: usize = 0;
    assert(s@.skip(0) =~= s@);
    loop
        invariant
            n == s.len(),
            m == p.len(),
            m > 0,
            i <= n,
            strip_prefixes(s@, p@) == strip_prefixes(s@.skip(i as int), p@),
        ensures
            i <= n,
            strip_prefixes(s@, p@) == s@.skip(i as int),
        decreases n - i,
    {
        if n - i < m {
            break ;
        }
        let mut k: usize = 0;
        let mut same = true;
        while k < m
            invariant
                n == s.len(),
                m == p.len(),
                i + m <= n,
                k <= m,
                same == forall|j: int| 0 <= j < k ==> s@[i + j] == p@[j],
            decreases m - k,
        {
            same = same && s[i + k] == p[k];
            k += 1;
        }
        let ghost rest = s@.skip(i as int);
        if same {
            assert(rest.subrange(0, m as int) =~= p@);
            assert(rest.skip(m as int) =~= s@.skip(i + m));
            i += m;
        } else {
            assert(rest.subrange(0, m as int) != p@) by {
                if rest.subrange(0, m as int) == p@ {
                    assert forall|j: int| 0 <= j < m implies s@[i + j] == p@[j] by {
                        assert(rest.subrange(0, m as int)[j] == p@[j]);
                    }
                }
            }
            break ;
        }
    }
    let mut r: Vec<char> = Vec::new();
    let mut j = i;
    while j < n
        invariant
            n == s.len(),
            i <= j <= n,
            r@ == s@.subrange(i as int, j as int),
        decreases n - j,
    {
        r.push(s[j]);
        assert(s@.subrange(i as int, j + 1) =~= s@.subrange(i as int, j as int).push(s@[j as int]));
        j += 1;
    }
    assert(r@ =~= s@.skip(i as int));
    r
}

/// The version text of a release tag (see `tag_version_text`).
pub fn tag_text(tag: &str) -> (r: String)
    ensures
        r@ == tag_version_text(tag@),
{
    let chars = crate::text::chars_of(tag);
    let no_v = strip_leading_char(&chars, 'v');
    let prefix = crate::text::chars_of("release-");
    proof {
        reveal_strlit("release-");
    }
    let text = strip_leading_prefix(&no_v, &prefix);
    let mut s = String::new();
    crate::text::push_chars(&mut s, &text);
    assert(s@ =~= tag_version_text(tag@));
    s
}

/// Read the version out of a release tag: leading `v`s, then leading
/// `release-`s, are dropped and the rest parsed as a semantic version.
pub fn parse_tag_version(tag: &str) -> (r: Option<SemVer>)
    ensures
        r is Some <==> semver_parses(tag_version_text(tag@)),
        r matches Some(v) ==> v.parts() == semver_parts(tag_version_text(tag@)),
{
    let s = tag_text(tag);
    parse_semver(s.as_str())
}

/// Index of the first asset named `name`.
pub open spec fn first_asset_named(assets: Seq<ReleaseAsset>, name: Seq<char>) -> Option<int>
    decreases assets.len(),
{
    if assets.len() == 0 {
        None
    } else if assets[0].name@ == name {
        Some(0)
    } else {
        match first_asset_named(assets.drop_first(), name) {
            Some(i) => Some(i + 1),
            None => None,
        }
    }
}

proof fn lemma_first_asset_named(assets: Seq<ReleaseAsset>, name: Seq<char>)
    ensures
        first_asset_named(assets, name) matches Some(i) ==> 0 <= i < assets.len()
            && assets[i].name@ == name,
    decreases assets.len(),
{
    if assets.len() > 0 && assets[0].name@ != name {
        lemma_first_asset_named(assets.drop_first(), name);
    }
}

fn find_asset(assets: &Vec<ReleaseAsset>, name: &str) -> (r: Option<usize>)
    ensures
        r matches Some(i) ==> i < assets.len(),
        match first_asset_named(assets@, name@) {
            Some(i) => r == Some(i as usize),
            None => r is None,
        },
{
    let want = crate::text::chars_of(name);
    let mut i: usize = 0;
    proof {
        lemma_first_asset_named(assets@, name@);
    }
    assert(assets@.skip(0) =~= assets@);
    while i < assets.len()
        invariant
            i <= assets.len(),
            want@ == name@,
            first_asset_named(assets@, name@) == match first_asset_named(
                assets@.skip(i as int),
                name@,
            ) {
                Some(j) => Some(j + i),
                None => None,
            },
        decreases assets.len() - i,
    {
        let got = crate::text::chars_of(assets[i].name.as_str());
        assert(assets@.skip(i as int)[0] == assets@[i as int]);
        assert(assets@.skip(i as int).drop_first() =~= assets@.skip(i + 1));
        if crate::text::chars_equal(&got, &want) {
            return Some(i);
        }
        i += 1;
    }
    assert(assets@.skip(i as int) =~= Seq::<ReleaseAsset>::empty());
    None
}

pub open spec fn unparseable_tag_message(tag: Seq<char>) -> Seq<char> {
    "unparseable release tag: "@ + tag
}

pub open spec fn missing_assets_message(tag: Seq<char>) -> Seq<char> {
    "release "@ + tag + " is missing assets — build may still be in progress"@
}

/// A copy of the text of `s`.
fn copy_text(s: &String) -> (r: String)
    ensures
        r@ == s@,
{
    s.clone()
}

/// `info` is the update that `release` offers, its binary being asset `a`
/// and its checksum asset `h`, from version text `current` to `latest`:
/// the release's name (its tag if unnamed), its notes (empty if none), the
/// two assets' URLs and the binary's size.
pub open spec fn offers(
    release: Release,
    a: int,
    h: int,
    current: Seq<char>,
    latest: Seq<char>,
    info: UpdateInfo,
) -> bool {
    &&& info.current@ == current
    &&& info.latest@ == latest
    &&& info.release_name@ == match release.name {
        Some(n) => n@,
        None => release.tag_name@,
    }
    &&& info.release_notes@ == match release.body {
        Some(b) => b@,
        None => Seq::empty(),
    }
    &&& info.asset_url@ == release.assets@[a].browser_download_url@
    &&& info.sha256_url@ == release.assets@[h].browser_download_url@
    &&& info.asset_size == release.assets@[a].size
}

/// The answer for a release that is (`newer`) or is not newer than the
/// running binary: not newer, up to date; newer with both assets, the
/// update from `current` to `latest`; newer without them, the
/// missing-assets error.
pub open spec fn update_answer(
    release: Release,
    current: Seq<char>,
    latest: Seq<char>,
    newer: bool,
    r: Result<Option<UpdateInfo>, String>,
) -> bool {
    &&& !newer ==> (r matches Ok(None))
    &&& newer ==> match (
        first_asset_named(release.assets@, ASSET_NAME@),
        first_asset_named(release.assets@, SHA_NAME@),
    ) {
        (Some(a), Some(h)) => (r matches Ok(Some(info)) && offers(release, a, h, current, latest, info)),
        _ => (r matches Err(e) && e@ == missing_assets_message(release.tag_name@)),
    }
}

/// The answer of the update check for `release` and running version text
/// `current`: an unparseable tag is an error; otherwise the release is
/// newer when its version is not at most `current`, and the versions
/// reported are both texts as `semver` prints them.
pub open spec fn release_answer(
    release: Release,
    current: Seq<char>,
    r: Result<Option<UpdateInfo>, String>,
) -> bool {
    let tag = tag_version_text(release.tag_name@);
    if !semver_parses(tag) {
        (r matches Err(e) && e@ == unparseable_tag_message(release.tag_name@))
    } else {
        update_answer(
            release,
            semver_display(current),
            semver_display(tag),
            !semver_le(tag, current),
            r,
        )
    }
}

/// The decision once the latest release's version is known: `newer` tells
/// whether it is strictly newer than the running binary. Not newer: up to
/// date. Newer but missing the binary or its checksum (the release build
/// may still be running): an error, so that the user is told to retry
/// rather than that they are up to date. Otherwise the update from
/// `current` to `latest` (version texts).
pub fn release_update(release: &Release, current: String, latest: String, newer: bool) -> (r:
    Result<Option<UpdateInfo>, String>)
    ensures
        update_answer(*release, current@, latest@, newer, r),
{
    if !newer {
        return Ok(None);
    }
    let asset = find_asset(&release.assets, ASSET_NAME);
    let sha = find_asset(&release.assets, SHA_NAME);
    proof {
        lemma_first_asset_named(release.assets@, ASSET_NAME@);
        lemma_first_asset_named(release.assets@, SHA_NAME@);
    }
    match (asset, sha) {
        (Some(a), Some(h)) => {
            let release_name = match &release.name {
                Some(n) => copy_text(n),
                None => copy_text(&release.tag_name),
            };
            let release_notes = match &release.body {
                Some(b) => copy_text(b),
                None => String::new(),
            };
            Ok(
                Some(
                    UpdateInfo {
                        current,
                        latest,
                        release_name,
                        release_notes,
                        asset_url: copy_text(&release.assets[a].browser_download_url),
                        sha256_url: copy_text(&release.assets[h].browser_download_url),
                        asset_size: release.assets[a].size,
                    },
                ),
            )
        },
        _ => {
            let mut e = string_of("release ");
            push_str(&mut e, release.tag_name.as_str());
            push_str(&mut e, " is missing assets — build may still be in progress");
            Err(e)
        },
    }
}

/// Whether `release` is an update for a binary at version `current` (a
/// version text): `Ok(Some(_))` for a strictly newer release with both
/// assets, `Ok(None)` when the binary is at or past the latest tag, and an
/// error for an unparseable tag or a newer release whose assets are not
/// uploaded yet.
pub fn check_release(release: &Release, current: &str) -> (r: Result<Option<UpdateInfo>, String>)
    requires
        semver_parses(current@),
    ensures
        release_answer(*release, current@, r),
{
    let text = tag_text(release.tag_name.as_str());
    let latest = match parse_semver(text.as_str()) {
        Some(v) => v.display(),
        None => {
            let mut e = string_of("unparseable release tag: ");
            push_str(&mut e, release.tag_name.as_str());
            return Err(e);
        },
    };
    let running = match parse_semver(current) {
        Some(v) => v.display(),
        None => return Ok(None),
    };
    let newer = !semver_le_text(text.as_str(), current);
    release_update(release, running, latest, newer)
}

/// `check_release` for any running version text: `None` when the text is
/// not a semantic version, otherwise the check's answer.
pub fn check_release_for(release: &Release, current: &str) -> (r: Option<
    Result<Option<UpdateInfo>, String>,
>)
    ensures
        r is None <==> !semver_parses(current@),
        r matches Some(x) ==> release_answer(*release, current@, x),
{
    match parse_semver(current) {
        None => None,
        Some(_) => Some(check_release(release, current)),
    }
}

/// `s` as `str::to_lowercase` writes it.
pub uninterp spec fn lowercase(s: Seq<char>) -> Seq<char>;

/// `str::to_lowercase`.
#[verifier::external_body]
fn to_lowercase(s: &str) -> (r: String)
    ensures
        r@ == lowercase(s@),
{
    s.to_lowercase()
}

/// The SHA-256 digest of `data`, written as lowercase hexadecimal.
pub uninterp spec fn sha256_hex(data: Seq<u8>) -> Seq<char>;

/// `sha2::Sha256::digest` of `data`, formatted with `{:x}`.
#[verifier::external_body]
fn sha256_hex_of(data: &[u8]) -> (r: String)
    ensures
        r@ == sha256_hex(data@),
{
    format!("{:x}", sha2::Sha256::digest(data))
}

pub open spec fn checksum_mismatch_message(expected: Seq<char>, actual: Seq<char>) -> Seq<char> {
    "checksum mismatch: expected "@ + expected + ", got "@ + actual
}

/// The verdict on a download whose digest is `actual`, given the text
/// `sums` of the published checksum file: the expected digest is its
/// first word, lowercased. No word: an error; a different digest: the
/// mismatch error naming both.
pub open spec fn checksum_answer(sums: Seq<char>, actual: Seq<char>) -> Result<(), Seq<char>> {
    let words = ws_tokens(sums);
    if words.len() == 0 {
        Err("empty checksum file"@)
    } else if lowercase(words[0]) == actual {
        Ok(())
    } else {
        Err(checksum_mismatch_message(lowercase(words[0]), actual))
    }
}

/// The view of a verdict.
pub open spec fn verdict_view(r: Result<(), String>) -> Result<(), Seq<char>> {
    match r {
        Ok(()) => Ok(()),
        Err(e) => Err(e@),
    }
}

/// Check the digest `actual` of a download against the checksum file
/// `sums` (see `checksum_answer`).
pub fn checksum_verdict(sums: &str, actual: &str) -> (r: Result<(), String>)
    ensures
        verdict_view(r) == checksum_answer(sums@, actual@),
{
    let chars = chars_of(sums);
    let words = ws_split(&chars);
    if words.len() == 0 {
        return Err(string_of("empty checksum file"));
    }
    let mut first = String::new();
    push_chars(&mut first, &words[0]);
    assert(first@ =~= ws_tokens(sums@)[0]);
    let expected = to_lowercase(first.as_str());
    let want = chars_of(expected.as_str());
    let got = chars_of(actual);
    if chars_equal(&want, &got) {
        Ok(())
    } else {
        let mut e = string_of("checksum mismatch: expected ");
        push_str(&mut e, expected.as_str());
        push_str(&mut e, ", got ");
        push_str(&mut e, actual);
        Err(e)
    }
}

/// Check a downloaded binary `data` against the checksum file `sums`: its
/// SHA-256 must be the file's first word, lowercased.
pub fn verify_download(sums: &str, data: &Vec<u8>) -> (r: Result<(), String>)
    ensures
        verdict_view(r) == checksum_answer(sums@, sha256_hex(data@)),
{
    let actual = sha256_hex_of(data.as_slice());
    checksum_verdict(sums, actual.as_str())
}

} // verus!
