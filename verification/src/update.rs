//! Self-update: which release is newer, which of its files is the disk image,
//! and what the status bar's cell says about it.

use vstd::prelude::*;
use vstd::string::*;

use crate::json;
use crate::json::{items_member, parse_json, text_member};
use crate::paths;
use crate::paths::is_below;
use crate::text;
use crate::text::{
    chars_of, decimal_text, ends_with, find_char, join3, number_of, owned, trimmed,
};

verus! {

broadcast use vstd::seq::group_seq_axioms;

/// Where updates come from.
pub const RELEASES_API: &'static str =
    "https://api.github.com/repos/richasdev/ellefuanti/releases/latest";

/// A version `x.y.z`, ordered field by field.
#[derive(Debug, Clone, Copy, PartialEq, Eq, Structural, Ord)]
pub struct Version(pub u32, pub u32, pub u32);

/// Whether `a` is an older version than `b`.
pub open spec fn older(a: Version, b: Version) -> bool {
    ||| a.0 < b.0
    ||| a.0 == b.0 && a.1 < b.1
    ||| a.0 == b.0 && a.1 == b.1 && a.2 < b.2
}

impl PartialOrd for Version {
    fn partial_cmp(&self, other: &Version) -> (order: Option<core::cmp::Ordering>) {
        if *self == *other {
            Some(core::cmp::Ordering::Equal)
        } else if self.0 < other.0 || (self.0 == other.0 && self.1 < other.1) || (self.0 == other.0
            && self.1 == other.1 && self.2 < other.2) {
            Some(core::cmp::Ordering::Less)
        } else {
            Some(core::cmp::Ordering::Greater)
        }
    }
}

impl vstd::std_specs::cmp::PartialOrdSpecImpl for Version {
    open spec fn obeys_partial_cmp_spec() -> bool {
        true
    }

    open spec fn partial_cmp_spec(&self, other: &Version) -> Option<core::cmp::Ordering> {
        if *self == *other {
            Some(core::cmp::Ordering::Equal)
        } else if older(*self, *other) {
            Some(core::cmp::Ordering::Less)
        } else {
            Some(core::cmp::Ordering::Greater)
        }
    }
}

/// `text` without one leading `v`.
pub open spec fn without_v(text: Seq<char>) -> Seq<char> {
    if text.len() > 0 && text[0] == 'v' {
        text.skip(1)
    } else {
        text
    }
}

/// The version that a row of exactly three numbers between dots names.
pub open spec fn version_in(text: Seq<char>) -> Option<Version> {
    let first_dot = text::first_index(text, '.') as int;
    let rest = text.skip(first_dot + 1);
    let second_dot = text::first_index(rest, '.') as int;
    if first_dot >= text.len() || second_dot >= rest.len() {
        None
    } else {
        match (
            text::number_in(text.take(first_dot), u32::MAX as nat),
            text::number_in(rest.take(second_dot), u32::MAX as nat),
            text::number_in(rest.skip(second_dot + 1), u32::MAX as nat),
        ) {
            (Some(major), Some(minor), Some(patch)) => Some(
                Version(major as u32, minor as u32, patch as u32),
            ),
            _ => None,
        }
    }
}

impl Version {
    /// The version in its usual notation.
    pub open spec fn text(self) -> Seq<char> {
        text::decimal(self.0 as nat) + "."@ + text::decimal(self.1 as nat) + "."@ + text::decimal(
            self.2 as nat,
        )
    }

    /// Accepts `0.3.0` and `v0.3.0`; anything else is `None` rather than a
    /// guess. A pre-release suffix is refused: read as the release it
    /// precedes, it would offer a downgrade as an update.
    pub fn parse(text: &str) -> (version: Option<Version>)
        ensures
            version == version_in(without_v(text@)),
    {
        let chars = chars_of(text);
        let ghost bare = without_v(text@);
        let start: usize = if chars.len() > 0 && chars[0] == 'v' {
            1
        } else {
            0
        };
        assert(chars@.skip(start as int) == bare);
        let first_dot = find_char(&chars, start, '.');
        if first_dot == chars.len() {
            return None;
        }
        let ghost rest = bare.skip(first_dot - start + 1);
        assert(chars@.skip(first_dot + 1) == rest);
        let second_dot = find_char(&chars, first_dot + 1, '.');
        if second_dot == chars.len() {
            return None;
        }
        assert(chars@.subrange(start as int, first_dot as int) == bare.take(first_dot - start));
        assert(chars@.subrange(first_dot + 1, second_dot as int) == rest.take(
            second_dot - first_dot - 1,
        ));
        assert(chars@.subrange(second_dot + 1, chars.len() as int) == rest.skip(
            second_dot - first_dot,
        ));
        let major = number_of(&chars, start, first_dot, u32::MAX as u64);
        let minor = number_of(&chars, first_dot + 1, second_dot, u32::MAX as u64);
        let patch = number_of(&chars, second_dot + 1, chars.len(), u32::MAX as u64);
        match (major, minor, patch) {
            (Some(major), Some(minor), Some(patch)) => Some(
                Version(major as u32, minor as u32, patch as u32),
            ),
            _ => None,
        }
    }

    /// The version in its usual notation.
    pub fn to_string(&self) -> (text: String)
        ensures
            text@ == self.text(),
    {
        let mut text = join3(
            decimal_text(self.0 as u64).as_str(),
            ".",
            decimal_text(self.1 as u64).as_str(),
        );
        text.append(".");
        text.append(decimal_text(self.2 as u64).as_str());
        text
    }
}

/// A newer release, as much of it as the status bar needs. Without a disk
/// image it is still announced: the click opens its page instead.
#[derive(Debug, PartialEq, Eq)]
pub struct Available {
    pub version: Version,
    pub dmg_url: Option<String>,
    pub html_url: String,
}

/// A release as contracts see it.
pub struct AvailableView {
    pub version: Version,
    pub dmg_url: Option<Seq<char>>,
    pub html_url: Seq<char>,
}

impl View for Available {
    type V = AvailableView;

    open spec fn view(&self) -> AvailableView {
        AvailableView {
            version: self.version,
            dmg_url: self.dmg_url.deep_view(),
            html_url: self.html_url@,
        }
    }
}

impl Clone for Available {
    fn clone(&self) -> (copy: Self)
        ensures
            copy == *self,
    {
        Available {
            version: self.version,
            dmg_url: match &self.dmg_url {
                Some(url) => Some(url.clone()),
                None => None,
            },
            html_url: self.html_url.clone(),
        }
    }
}

/// A file of a release, as far as it names itself and where it is.
pub struct Asset {
    pub name: Option<String>,
    pub url: Option<String>,
}

/// A release as its document describes it.
pub struct ReleaseFields {
    pub tag_name: Option<String>,
    pub html_url: Option<String>,
    pub assets: Vec<Asset>,
}

/// A file of a release as contracts see it: its name and its address.
pub type AssetView = (Option<Seq<char>>, Option<Seq<char>>);

impl vstd::view::DeepView for Asset {
    type V = AssetView;

    open spec fn deep_view(&self) -> AssetView {
        (self.name.deep_view(), self.url.deep_view())
    }
}

/// The address of the first file that is a disk image and has one.
pub open spec fn first_dmg(assets: Seq<AssetView>) -> Option<Seq<char>>
    decreases assets.len(),
{
    if assets.len() == 0 {
        None
    } else {
        match assets[0] {
            (Some(name), Some(url)) => if "-macos.dmg"@.is_suffix_of(name) {
                Some(url)
            } else {
                first_dmg(assets.skip(1))
            },
            _ => first_dmg(assets.skip(1)),
        }
    }
}

/// The release that a document's fields describe: it has a version and a page.
pub open spec fn release_in(
    tag_name: Option<Seq<char>>,
    html_url: Option<Seq<char>>,
    assets: Seq<AssetView>,
) -> Option<AvailableView> {
    match (tag_name, html_url) {
        (Some(tag), Some(html_url)) => match version_in(without_v(tag)) {
            Some(version) => Some(
                AvailableView { version, dmg_url: first_dmg(assets), html_url },
            ),
            None => None,
        },
        _ => None,
    }
}

/// The files that a release document lists.
pub open spec fn assets_in(document: json::Json) -> Seq<AssetView> {
    document.items_member("assets"@).map_values(
        |item: json::Json|
            (item.text_member("name"@), item.text_member("browser_download_url"@)),
    )
}

/// The release that a document describes.
pub open spec fn release_in_document(document: json::Json) -> Option<AvailableView> {
    release_in(
        document.text_member("tag_name"@),
        document.text_member("html_url"@),
        assets_in(document),
    )
}

/// The address of the first file that is a disk image and has one.
fn find_dmg(assets: &Vec<Asset>) -> (url: Option<String>)
    ensures
        url.deep_view() == first_dmg(assets.deep_view()),
{
    let mut i: usize = 0;
    assert(assets.deep_view().skip(0) == assets.deep_view());
    while i < assets.len()
        invariant
            i <= assets.len(),
            first_dmg(assets.deep_view().skip(i as int)) == first_dmg(assets.deep_view()),
        decreases assets.len() - i,
    {
        let ghost rest = assets.deep_view().skip(i as int);
        assert(rest[0] == assets[i as int].deep_view());
        assert(rest.skip(1) == assets.deep_view().skip(i + 1));
        if let (Some(name), Some(url)) = (&assets[i].name, &assets[i].url) {
            if ends_with(name.as_str(), "-macos.dmg") {
                return Some(url.clone());
            }
        }
        i += 1;
    }
    None
}

/// The release that a document's fields describe.
pub fn release_from_fields(fields: &ReleaseFields) -> (release: Option<Available>)
    ensures
        release is Some == release_in(
            fields.tag_name.deep_view(),
            fields.html_url.deep_view(),
            fields.assets.deep_view(),
        ) is Some,
        release matches Some(found) ==> release_in(
            fields.tag_name.deep_view(),
            fields.html_url.deep_view(),
            fields.assets.deep_view(),
        ) == Some(found@),
{
    match (&fields.tag_name, &fields.html_url) {
        (Some(tag), Some(html_url)) => match Version::parse(tag.as_str()) {
            Some(version) => Some(
                Available {
                    version,
                    dmg_url: find_dmg(&fields.assets),
                    html_url: html_url.clone(),
                },
            ),
            None => None,
        },
        _ => None,
    }
}

/// Reads the fields of a release document.
pub fn release_fields(document: &serde_json::Value) -> (fields: ReleaseFields)
    ensures
        fields.tag_name.deep_view() == json::json_of(*document).text_member("tag_name"@),
        fields.html_url.deep_view() == json::json_of(*document).text_member("html_url"@),
        fields.assets.deep_view() == assets_in(json::json_of(*document)),
{
    let tag_name = text_member(document, "tag_name");
    let html_url = text_member(document, "html_url");
    let mut assets: Vec<Asset> = Vec::new();
    let ghost expected = assets_in(json::json_of(*document));
    if let Some(items) = items_member(document, "assets") {
        let mut i: usize = 0;
        while i < items.len()
            invariant
                i <= items.len(),
                expected.len() == items.len(),
                forall|k: int|
                    0 <= k < items.len() ==> #[trigger] expected[k] == (
                        json::json_of(items[k]).text_member("name"@),
                        json::json_of(items[k]).text_member("browser_download_url"@),
                    ),
                assets.deep_view() == expected.take(i as int),
            decreases items.len() - i,
        {
            let ghost before = assets.deep_view();
            let name = text_member(&items[i], "name");
            let url = text_member(&items[i], "browser_download_url");
            assets.push(Asset { name, url });
            assert(assets.deep_view() =~= before.push(expected[i as int]));
            assert(expected.take(i + 1) =~= expected.take(i as int).push(expected[i as int]));
            i += 1;
        }
        assert(expected.take(i as int) =~= expected);
    } else {
        assert(assets.deep_view() =~= expected);
    }
    ReleaseFields { tag_name, html_url, assets }
}

/// Reads the answer of the releases address. Anything that is not understood,
/// such as an error body, is no update.
pub fn parse_latest_release(json: &str) -> (release: Option<Available>)
    ensures
        ({
            let expected = match json::json_document(json@) {
                Some(document) => release_in_document(document),
                None => None,
            };
            &&& release is Some == expected is Some
            &&& release matches Some(found) ==> expected == Some(found@)
        }),
{
    match parse_json(json) {
        Ok(document) => release_from_fields(&release_fields(&document)),
        Err(_) => None,
    }
}

/// Whether `available` is strictly newer than the running build. A version
/// that does not parse answers `false`: a development build is not nagged.
pub fn newer_than_current(available: &Available, current: &str) -> (newer: bool)
    ensures
        newer == (match version_in(without_v(current@)) {
            Some(version) => older(version, available.version),
            None => false,
        }),
{
    match Version::parse(current) {
        Some(version) => available.version > version,
        None => false,
    }
}

/// How long to wait between two checks, in seconds.
pub const CHECK_INTERVAL: u64 = 21600;

/// Where an install goes.
pub const INSTALLED_APP: &'static str = "/Applications/ellefuanti.app";

/// The release that a check offers: one that was answered, that is understood
/// and that is newer than this build. A check that failed offers nothing, and
/// says nothing.
pub fn offered_release(answered: bool, body: &str, current: &str) -> (release: Option<Available>)
    ensures
        ({
            let found = match json::json_document(body@) {
                Some(document) => release_in_document(document),
                None => None,
            };
            let running = version_in(without_v(current@));
            &&& release is Some == (answered && found is Some && running is Some && older(
                running->0,
                found->0.version,
            ))
            &&& release matches Some(offer) ==> found == Some(offer@)
        }),
{
    if !answered {
        return None;
    }
    match parse_latest_release(body) {
        Some(release) => if newer_than_current(&release, current) {
            Some(release)
        } else {
            None
        },
        None => None,
    }
}

/// Whether this copy runs from where an install goes. One that cannot tell
/// where it runs from does not.
pub fn runs_installed(exe: Option<&str>) -> (installed: bool)
    ensures
        installed == match exe {
            Some(path) => paths::below(path@, INSTALLED_APP@),
            None => false,
        },
{
    match exe {
        Some(path) => is_below(path, INSTALLED_APP),
        None => false,
    }
}

/// What came of the install script: a failure is told in the script's words.
pub fn install_outcome(success: bool, stderr: &str) -> (outcome: Result<(), String>)
    ensures
        match outcome {
            Ok(_) => success,
            Err(error) => !success && error@ == text::trim(stderr@),
        },
{
    if success {
        Ok(())
    } else {
        Err(trimmed(stderr))
    }
}

/// Where the updater is, one cell's worth of state. An install that failed
/// leaves the offer on screen, so that it can be tried again.
#[derive(Debug, PartialEq, Eq)]
pub enum UpdateState {
    Idle,
    Available(Available),
    Downloading,
    ReadyToRestart,
}

impl Default for UpdateState {
    fn default() -> (state: Self)
        ensures
            state == UpdateState::Idle,
    {
        UpdateState::Idle
    }
}

impl Clone for UpdateState {
    fn clone(&self) -> (copy: Self)
        ensures
            copy == *self,
    {
        match self {
            UpdateState::Idle => UpdateState::Idle,
            UpdateState::Available(available) => UpdateState::Available(available.clone()),
            UpdateState::Downloading => UpdateState::Downloading,
            UpdateState::ReadyToRestart => UpdateState::ReadyToRestart,
        }
    }
}

/// What a click on the updater's cell asks for.
pub enum UpdateAction {
    Nothing,
    /// Download and install: run this script.
    Install { script: String },
    /// Open the release's page.
    OpenPage { url: String },
    /// Start the installed copy and quit this one.
    Restart,
}

impl UpdateState {
    /// What the status bar's cell says.
    pub open spec fn label(&self) -> Option<Seq<char>> {
        match self {
            UpdateState::Idle => None,
            UpdateState::Available(available) => Some(
                "Update v"@ + available.version.text() + " ↓"@,
            ),
            UpdateState::Downloading => Some("Updating…"@),
            UpdateState::ReadyToRestart => Some("Restart to update"@),
        }
    }

    /// What the status bar's cell says; `None` is no cell at all.
    pub fn status_label(&self) -> (label: Option<String>)
        ensures
            label.deep_view() == self.label(),
    {
        match self {
            UpdateState::Idle => None,
            UpdateState::Available(available) => Some(
                join3("Update v", available.version.to_string().as_str(), " ↓"),
            ),
            UpdateState::Downloading => Some(owned("Updating…")),
            UpdateState::ReadyToRestart => Some(owned("Restart to update")),
        }
    }

    /// After a check that found a newer release: only an offer gives way to an
    /// offer, so an install in flight or done is never undone by a check.
    pub open spec fn offered(self, release: Available) -> UpdateState {
        match self {
            UpdateState::Idle | UpdateState::Available(_) => UpdateState::Available(release),
            _ => self,
        }
    }

    /// A check found a newer release.
    pub fn offer(&mut self, release: Available)
        ensures
            *final(self) == old(self).offered(release),
    {
        let takes = match self {
            UpdateState::Idle => true,
            UpdateState::Available(_) => true,
            _ => false,
        };
        if takes {
            *self = UpdateState::Available(release);
        }
    }

    /// The cell was clicked. `installed` says whether this copy runs from
    /// where an install would go; another copy, or a release without a disk
    /// image, opens the release's page instead.
    pub fn click(&mut self, installed: bool) -> (action: UpdateAction)
        ensures
            match *old(self) {
                UpdateState::Available(release) => match release.dmg_url {
                    Some(url) if installed => {
                        &&& *final(self) == UpdateState::Downloading
                        &&& action matches UpdateAction::Install { script }
                        &&& script@ == install_script_text(url@)
                    },
                    _ => {
                        &&& *final(self) == *old(self)
                        &&& action matches UpdateAction::OpenPage { url }
                        &&& url@ == release.html_url@
                    },
                },
                UpdateState::ReadyToRestart => {
                    &&& *final(self) == *old(self)
                    &&& action is Restart
                },
                _ => {
                    &&& *final(self) == *old(self)
                    &&& action is Nothing
                },
            },
    {
        let action = match &*self {
            UpdateState::Available(release) => match &release.dmg_url {
                Some(url) if installed => UpdateAction::Install {
                    script: install_script(url.as_str()),
                },
                _ => UpdateAction::OpenPage { url: release.html_url.clone() },
            },
            UpdateState::ReadyToRestart => UpdateAction::Restart,
            _ => UpdateAction::Nothing,
        };
        if let UpdateAction::Install { .. } = &action {
            *self = UpdateState::Downloading;
        }
        action
    }

    /// The install ended. A failure goes back to the offer and says why.
    pub fn install_ended(&mut self, release: Available, outcome: Result<(), String>) -> (status:
        Option<String>)
        ensures
            match outcome {
                Ok(_) => *final(self) == UpdateState::ReadyToRestart && status is None,
                Err(error) => *final(self) == UpdateState::Available(release)
                    && status.deep_view() == Some("Update failed: "@ + error@),
            },
    {
        match outcome {
            Ok(_) => {
                *self = UpdateState::ReadyToRestart;
                None
            },
            Err(error) => {
                *self = UpdateState::Available(release);
                Some(text::join2("Update failed: ", error.as_str()))
            },
        }
    }
}

/// The first half of the install script, up to the address.
pub const SCRIPT_HEAD: &'static str = "set -eu\nSTAGE=\"$(mktemp -d)\"\ntrap 'hdiutil detach \"$STAGE/mnt\" >/dev/null 2>&1 || true; rm -rf \"$STAGE\"' EXIT\ncurl -fsSL -o \"$STAGE/update.dmg\" \"";

/// The second half of the install script, behind the address.
pub const SCRIPT_TAIL: &'static str = "\"\nmkdir \"$STAGE/mnt\"\nhdiutil attach -nobrowse -readonly -mountpoint \"$STAGE/mnt\" \"$STAGE/update.dmg\" >/dev/null\nrm -rf \"/Applications/ellefuanti.app.update\"\ncp -R \"$STAGE/mnt/ellefuanti.app\" \"/Applications/ellefuanti.app.update\"\nhdiutil detach \"$STAGE/mnt\" >/dev/null\nrm -rf \"/Applications/ellefuanti.app\"\nmv \"/Applications/ellefuanti.app.update\" \"/Applications/ellefuanti.app\"\nxattr -dr com.apple.quarantine \"/Applications/ellefuanti.app\" || true\n";

/// The install script for a disk image at `url`.
pub open spec fn install_script_text(url: Seq<char>) -> Seq<char> {
    SCRIPT_HEAD@ + url + SCRIPT_TAIL@
}

/// The install script for a disk image at `url`: download, mount, stage,
/// swap. The first step that fails ends it.
pub fn install_script(url: &str) -> (script: String)
    ensures
        script@ == install_script_text(url@),
{
    join3(SCRIPT_HEAD, url, SCRIPT_TAIL)
}

/// A version's notation reads back as that version, with or without a `v`.
pub proof fn law_version_round_trip(version: Version)
    ensures
        version_in(without_v(version.text())) == Some(version),
        version_in(without_v(seq!['v'] + version.text())) == Some(version),
{
    let a = text::decimal(version.0 as nat);
    let b = text::decimal(version.1 as nat);
    let c = text::decimal(version.2 as nat);
    text::lemma_decimal(version.0 as nat);
    text::lemma_decimal(version.1 as nat);
    text::lemma_decimal(version.2 as nat);
    reveal_strlit(".");
    assert("."@ =~= seq!['.']);
    let whole = version.text();
    assert(whole[0] == a[0]);
    assert(text::is_digit(a[0]));
    assert(without_v(whole) == whole);
    assert((seq!['v'] + whole).skip(1) =~= whole);
    assert forall|k: int| 0 <= k < a.len() implies whole[k] != '.' by {
        assert(whole[k] == a[k]);
        assert(text::is_digit(a[k]));
    }
    text::lemma_is_first_index(whole, '.', a.len() as int);
    assert(whole.take(a.len() as int) =~= a);
    let rest = whole.skip(a.len() + 1int);
    assert(rest =~= b + "."@ + c);
    assert forall|k: int| 0 <= k < b.len() implies rest[k] != '.' by {
        assert(rest[k] == b[k]);
        assert(text::is_digit(b[k]));
    }
    text::lemma_is_first_index(rest, '.', b.len() as int);
    assert(rest.take(b.len() as int) =~= b);
    assert(rest.skip(b.len() + 1int) =~= c);
}

/// Versions are ordered strictly and totally.
pub proof fn law_version_order(a: Version, b: Version, c: Version)
    ensures
        !older(a, a),
        older(a, b) && older(b, c) ==> older(a, c),
        older(a, b) || older(b, a) || a == b,
        !(older(a, b) && older(b, a)),
{
}

/// A build is never offered the release that it is.
pub proof fn law_own_version_is_no_update(release: Available)
    ensures
        version_in(without_v(release.version.text())) matches Some(version) && !older(
            version,
            release.version,
        ),
{
    law_version_round_trip(release.version);
}

/// A check never takes an install away: once a download started, only its end
/// changes the state.
pub proof fn law_check_keeps_install(state: UpdateState, release: Available)
    requires
        state is Downloading || state is ReadyToRestart,
    ensures
        state.offered(release) == state,
{
}

/// There is a cell exactly while there is something to do or to wait for.
pub proof fn law_idle_shows_no_cell(state: UpdateState)
    ensures
        state.label() is None <==> state is Idle,
{
}

/// The first number that differs decides which of two versions is older.
pub proof fn law_first_number_decides(a: Version, b: Version)
    ensures
        a.0 < b.0 ==> older(a, b),
        a.0 == b.0 && a.1 < b.1 ==> older(a, b),
        a.0 == b.0 && a.1 == b.1 && a.2 < b.2 ==> older(a, b),
        a.0 > b.0 ==> !older(a, b),
        a.0 == b.0 && a.1 > b.1 ==> !older(a, b),
        a.0 == b.0 && a.1 == b.1 && a.2 >= b.2 ==> !older(a, b),
        vstd::std_specs::cmp::PartialOrdSpec::partial_cmp_spec(&a, &b) == Some(core::cmp::Ordering::Less) <==> older(a, b),
        vstd::std_specs::cmp::PartialOrdSpec::partial_cmp_spec(&a, &b) == Some(core::cmp::Ordering::Greater) <==> older(b, a),
        vstd::std_specs::cmp::PartialOrdSpec::partial_cmp_spec(&a, &b) == Some(core::cmp::Ordering::Equal) <==> a == b,
{
}

/// A version is three numbers between dots, and nothing else is one: a text
/// without two dots, or with something between them that is no number, is none.
pub proof fn law_version_is_three_numbers(a: Seq<char>, b: Seq<char>, c: Seq<char>)
    requires
        forall|k: int| 0 <= k < a.len() ==> a[k] != '.',
        forall|k: int| 0 <= k < b.len() ==> b[k] != '.',
    ensures
        version_in(a + seq!['.'] + b + seq!['.'] + c) == (match (
            text::number_in(a, u32::MAX as nat),
            text::number_in(b, u32::MAX as nat),
            text::number_in(c, u32::MAX as nat),
        ) {
            (Some(major), Some(minor), Some(patch)) => Some(
                Version(major as u32, minor as u32, patch as u32),
            ),
            _ => None,
        }),
        version_in(a) is None,
        version_in(a + seq!['.'] + b) is None,
{
    let whole = a + seq!['.'] + b + seq!['.'] + c;
    text::lemma_is_first_index(whole, '.', a.len() as int);
    assert(whole.take(a.len() as int) =~= a);
    let rest = whole.skip(a.len() + 1int);
    assert(rest =~= b + seq!['.'] + c);
    text::lemma_is_first_index(rest, '.', b.len() as int);
    assert(rest.take(b.len() as int) =~= b);
    assert(rest.skip(b.len() + 1int) =~= c);
    text::lemma_is_first_index(a, '.', a.len() as int);
    let two = a + seq!['.'] + b;
    text::lemma_is_first_index(two, '.', a.len() as int);
    assert(two.skip(a.len() + 1int) =~= b);
    text::lemma_is_first_index(b, '.', b.len() as int);
}

/// One v in front of a tag counts for nothing.
pub proof fn law_tag_may_begin_with_v(text: Seq<char>)
    ensures
        without_v(seq!['v'] + text) == text,
        text.len() == 0 || text[0] != 'v' ==> without_v(text) == text,
{
    assert((seq!['v'] + text).skip(1) =~= text);
}

/// The disk image of a release is the first file with such a name that has an
/// address, and there is one exactly where some file is.
pub proof fn law_first_disk_image_is_taken(assets: Seq<AssetView>)
    ensures
        first_dmg(assets) matches Some(url) ==> exists|i: int|
            0 <= i < assets.len() && (#[trigger] assets[i]).1 == Some(url) && is_image(assets[i])
                && forall|j: int| 0 <= j < i ==> !is_image(#[trigger] assets[j]),
        first_dmg(assets) is None ==> forall|i: int|
            0 <= i < assets.len() ==> !is_image(#[trigger] assets[i]),
    decreases assets.len(),
{
    if assets.len() > 0 {
        if is_image(assets[0]) {
            assert(first_dmg(assets) == assets[0].1);
        } else {
            let rest = assets.skip(1);
            law_first_disk_image_is_taken(rest);
            assert(first_dmg(assets) == first_dmg(rest));
            if let Some(url) = first_dmg(rest) {
                let i = choose|i: int|
                    0 <= i < rest.len() && (#[trigger] rest[i]).1 == Some(url) && is_image(rest[i])
                        && forall|j: int| 0 <= j < i ==> !is_image(#[trigger] rest[j]);
                assert(assets[i + 1] == rest[i]);
                assert forall|j: int| 0 <= j < i + 1 implies !is_image(#[trigger] assets[j]) by {
                    if j > 0 {
                        assert(rest[j - 1] == assets[j]);
                    }
                }
            } else {
                assert forall|i: int| 0 <= i < assets.len() implies !is_image(
                    #[trigger] assets[i],
                ) by {
                    if i > 0 {
                        assert(rest[i - 1] == assets[i]);
                    }
                }
            }
        }
    }
}

/// Whether a file is a disk image that can be had.
pub open spec fn is_image(asset: AssetView) -> bool {
    asset.0 is Some && "-macos.dmg"@.is_suffix_of(asset.0->0) && asset.1 is Some
}

/// A release is read exactly where its tag is a version and it has a page, and
/// then with that version, that page and its disk image.
pub proof fn law_release_has_version_and_page(
    tag: Option<Seq<char>>,
    page: Option<Seq<char>>,
    assets: Seq<AssetView>,
)
    ensures
        release_in(tag, page, assets) is Some <==> tag is Some && page is Some && version_in(
            without_v(tag->0),
        ) is Some,
        release_in(tag, page, assets) matches Some(release) ==> {
            &&& Some(release.version) == version_in(without_v(tag->0))
            &&& release.html_url == page->0
            &&& release.dmg_url == first_dmg(assets)
        },
{
}

/// A document's release is read from its own members: the tag, the page, and of
/// each file its name and its address.
pub proof fn law_release_is_read_from_its_members(members: Map<Seq<char>, json::Json>, i: int)
    ensures
        ({
            let document = json::Json::Object(members);
            let files = document.items_member("assets"@);
            &&& release_in_document(document) == release_in(
                document.text_member("tag_name"@),
                document.text_member("html_url"@),
                assets_in(document),
            )
            &&& assets_in(document).len() == files.len()
            &&& 0 <= i < files.len() ==> assets_in(document)[i].0 == files[i].text_member("name"@)
                && assets_in(document)[i].1 == files[i].text_member("browser_download_url"@)
        }),
{
}

/// The cell offers the release by its version, then says that it is installed,
/// then that a restart is due; a newer offer replaces an older one.
pub proof fn law_cell_says_what_is_due(release: Available, other: Available)
    ensures
        UpdateState::Available(release).label() == Some(
            "Update v"@ + text::decimal(release.version.0 as nat) + "."@ + text::decimal(
                release.version.1 as nat,
            ) + "."@ + text::decimal(release.version.2 as nat) + " ↓"@,
        ),
        UpdateState::Downloading.label() == Some("Updating…"@),
        UpdateState::ReadyToRestart.label() == Some("Restart to update"@),
        UpdateState::Idle.label() is None,
        UpdateState::Idle.offered(release) == UpdateState::Available(release),
        UpdateState::Available(other).offered(release) == UpdateState::Available(release),
{
    let v = text::decimal(release.version.0 as nat) + "."@ + text::decimal(
        release.version.1 as nat,
    ) + "."@ + text::decimal(release.version.2 as nat);
    assert("Update v"@ + v + " ↓"@ =~= "Update v"@ + text::decimal(release.version.0 as nat)
        + "."@ + text::decimal(release.version.1 as nat) + "."@ + text::decimal(
        release.version.2 as nat,
    ) + " ↓"@);
}

/// The script holds the image's address between its first steps and its last,
/// whole and unchanged.
pub proof fn law_script_fetches_its_image(url: Seq<char>)
    ensures
        install_script_text(url).len() == SCRIPT_HEAD@.len() + url.len() + SCRIPT_TAIL@.len(),
        install_script_text(url).subrange(
            SCRIPT_HEAD@.len() as int,
            (SCRIPT_HEAD@.len() + url.len()) as int,
        ) == url,
        install_script_text(url).take(SCRIPT_HEAD@.len() as int) == SCRIPT_HEAD@,
        install_script_text(url).skip((SCRIPT_HEAD@.len() + url.len()) as int) == SCRIPT_TAIL@,
{
    let script = install_script_text(url);
    assert(script.subrange(SCRIPT_HEAD@.len() as int, (SCRIPT_HEAD@.len() + url.len()) as int)
        =~= url);
    assert(script.take(SCRIPT_HEAD@.len() as int) =~= SCRIPT_HEAD@);
    assert(script.skip((SCRIPT_HEAD@.len() + url.len()) as int) =~= SCRIPT_TAIL@);
}

} // verus!
