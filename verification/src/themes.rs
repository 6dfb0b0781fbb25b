//! The themes available this launch: the compiled-in ones, and those found on
//! disk.
//!
//! The compiled-in themes never depend on anything here: a launch that found
//! nothing on disk, or only broken files, still has all of them.

use vstd::prelude::*;
use vstd::string::*;

use crate::paths;
use crate::paths::{join_path, parent_of};
use crate::text;
use crate::text::{owned, same, text_before};
use crate::theme;
use crate::theme::{
    fall_back, install, set_theme, App, Theme, ThemeChoice, ThemeFile, ThemeVariant, Themed,
};

verus! {

broadcast use vstd::seq::group_seq_axioms;

/// Every theme found on disk, in the order of their names.
pub struct DiskThemes {
    pub themes: Vec<ThemeFile>,
}

/// Whether the names of the files come in order, each once.
pub open spec fn in_name_order(themes: Seq<ThemeFile>) -> bool {
    forall|i: int, j: int|
        0 <= i < j < themes.len() ==> text::comes_before(
            (#[trigger] themes[i]).name@,
            (#[trigger] themes[j]).name@,
        )
}

/// The first file of that name, by its index.
pub open spec fn index_of_name(themes: Seq<theme::FileView>, name: Seq<char>) -> Option<int>
    decreases themes.len(),
{
    if themes.len() == 0 {
        None
    } else if themes[0].name == name {
        Some(0)
    } else {
        match index_of_name(themes.skip(1), name) {
            Some(i) => Some(i + 1),
            None => None,
        }
    }
}

/// The names of the files, in order.
pub open spec fn names_of(themes: Seq<theme::FileView>) -> Seq<Seq<char>> {
    Seq::new(themes.len(), |i: int| themes[i].name)
}

proof fn lemma_index_of_name(themes: Seq<theme::FileView>, name: Seq<char>, i: int)
    requires
        0 <= i <= themes.len(),
        forall|k: int| 0 <= k < i ==> (#[trigger] themes[k]).name != name,
        i < themes.len() ==> themes[i].name == name,
    ensures
        index_of_name(themes, name) == (if i < themes.len() {
            Some(i)
        } else {
            None
        }),
    decreases themes.len(),
{
    if i > 0 {
        assert(themes[0].name != name);
        let rest = themes.skip(1);
        assert forall|k: int| 0 <= k < i - 1 implies (#[trigger] rest[k]).name != name by {
            assert(rest[k] == themes[k + 1]);
        }
        lemma_index_of_name(rest, name, i - 1);
    }
}

impl DiskThemes {
    /// Whether the themes come in the order of their names, each once.
    pub open spec fn well_formed(&self) -> bool {
        in_name_order(self.themes@)
    }

    /// Where the theme of that name is.
    fn position(&self, name: &str) -> (found: Option<usize>)
        ensures
            match found {
                Some(i) => i < self.themes.len() && index_of_name(
                    self.themes.deep_view(),
                    name@,
                ) == Some(i as int),
                None => index_of_name(self.themes.deep_view(), name@) is None,
            },
    {
        let mut i: usize = 0;
        while i < self.themes.len()
            invariant
                i <= self.themes.len(),
                forall|k: int| 0 <= k < i ==> (#[trigger] self.themes.deep_view()[k]).name != name@,
            decreases self.themes.len() - i,
        {
            assert(self.themes.deep_view()[i as int].name == self.themes[i as int].name@);
            if same(self.themes[i].name.as_str(), name) {
                proof {
                    lemma_index_of_name(self.themes.deep_view(), name@, i as int);
                }
                return Some(i);
            }
            i += 1;
        }
        proof {
            lemma_index_of_name(self.themes.deep_view(), name@, i as int);
        }
        None
    }

    /// The theme of that name, if one was found.
    pub fn get(&self, name: &str) -> (file: Option<&ThemeFile>)
        ensures
            match file {
                Some(found) => index_of_name(self.themes.deep_view(), name@) matches Some(i)
                    && found@ == self.themes.deep_view()[i],
                None => index_of_name(self.themes.deep_view(), name@) is None,
            },
    {
        match self.position(name) {
            Some(i) => {
                assert(self.themes.deep_view()[i as int] == self.themes[i as int]@);
                Some(&self.themes[i])
            },
            None => None,
        }
    }

    /// The name of every theme found.
    pub fn names(&self) -> (names: Vec<String>)
        ensures
            names.deep_view() == names_of(self.themes.deep_view()),
    {
        let mut names: Vec<String> = Vec::new();
        let mut i: usize = 0;
        let ghost all = names_of(self.themes.deep_view());
        while i < self.themes.len()
            invariant
                i <= self.themes.len(),
                all == names_of(self.themes.deep_view()),
                names.deep_view() == all.take(i as int),
            decreases self.themes.len() - i,
        {
            let ghost before = names.deep_view();
            names.push(self.themes[i].name.clone());
            assert(names.deep_view() =~= before.push(all[i as int]));
            assert(all.take(i + 1) =~= all.take(i as int).push(all[i as int]));
            i += 1;
        }
        assert(all.take(i as int) =~= all);
        names
    }
}

impl Default for DiskThemes {
    fn default() -> (themes: Self)
        ensures
            themes.themes@ == Seq::<ThemeFile>::empty(),
            themes.well_formed(),
    {
        DiskThemes { themes: Vec::new() }
    }
}

// ---------------------------------------------------------------------------
// Loading
// ---------------------------------------------------------------------------

/// Where themes are read from, the later the stronger: next to the program,
/// in the project's own tree, and the user's own directory.
pub fn theme_directories(
    executable: Option<&str>,
    project: &str,
    user: Option<&str>,
) -> (directories: Vec<String>)
    ensures
        ({
            let bundled: Seq<Seq<char>> = match executable {
                Some(program) => match paths::parent(program@) {
                    Some(dir) => seq![paths::join(dir, "../Resources/themes"@)],
                    None => seq![],
                },
                None => seq![],
            };
            let own: Seq<Seq<char>> = match user {
                Some(dir) => seq![dir@],
                None => seq![],
            };
            directories.deep_view() == bundled + seq![paths::join(project@, "../../assets/themes"@)]
                + own
        }),
{
    let mut directories: Vec<String> = Vec::new();
    if let Some(program) = executable {
        if let Some(dir) = parent_of(program) {
            directories.push(join_path(dir.as_str(), "../Resources/themes"));
        }
    }
    directories.push(join_path(project, "../../assets/themes"));
    if let Some(dir) = user {
        directories.push(owned(dir));
    }
    assert(directories.deep_view().len() == directories.len());
    directories
}

/// Every theme read, directory by directory.
pub open spec fn all_read(directories: Seq<Vec<ThemeFile>>) -> Seq<ThemeFile>
    decreases directories.len(),
{
    if directories.len() == 0 {
        Seq::empty()
    } else {
        all_read(directories.drop_last()) + directories.last()@
    }
}

/// Whether no theme read after the one at `i` has its name.
pub open spec fn is_last_of_name(read: Seq<ThemeFile>, i: int) -> bool {
    forall|j: int| i < j < read.len() ==> (#[trigger] read[j]).name@ != read[i].name@
}

/// Whether `file` was read, and nothing of its name after it.
pub open spec fn last_read(read: Seq<ThemeFile>, file: ThemeFile) -> bool {
    exists|i: int| 0 <= i < read.len() && #[trigger] read[i] == file && is_last_of_name(read, i)
}

/// Whether `themes` holds, of every name that was read, the last theme of that
/// name and nothing else.
pub open spec fn keeps_last_of_each(themes: Seq<ThemeFile>, read: Seq<ThemeFile>) -> bool {
    forall|file: ThemeFile| #[trigger] themes.contains(file) == last_read(read, file)
}

/// Whether something of that name was read.
spec fn name_read(read: Seq<ThemeFile>, name: Seq<char>) -> bool {
    exists|i: int| 0 <= i < read.len() && (#[trigger] read[i]).name@ == name
}

/// Some theme is the last of each name.
proof fn lemma_last_exists(read: Seq<ThemeFile>, i: int)
    requires
        0 <= i < read.len(),
    ensures
        exists|l: int|
            i <= l < read.len() && #[trigger] is_last_of_name(read, l) && read[l].name@
                == read[i].name@,
    decreases read.len() - i,
{
    if !is_last_of_name(read, i) {
        let j = choose|j: int| i < j < read.len() && (#[trigger] read[j]).name@ == read[i].name@;
        lemma_last_exists(read, j);
    } else {
        assert(is_last_of_name(read, i) && read[i].name@ == read[i].name@);
    }
}

/// What was read before everything else counts only where nothing read later
/// has its name.
proof fn lemma_last_read_before(done: Seq<ThemeFile>, first: ThemeFile, file: ThemeFile)
    ensures
        last_read(seq![first] + done, file) == (last_read(done, file) || (file == first
            && !name_read(done, first.name@))),
{
    let read = seq![first] + done;
    if last_read(read, file) {
        let i = choose|i: int|
            0 <= i < read.len() && #[trigger] read[i] == file && is_last_of_name(read, i);
        if i > 0 {
            assert(done[i - 1] == file);
            assert forall|j: int| i - 1 < j < done.len() implies (#[trigger] done[j]).name@
                != done[i - 1].name@ by {
                assert(read[j + 1] == done[j]);
            }
        } else if name_read(done, first.name@) {
            let j = choose|j: int|
                0 <= j < done.len() && (#[trigger] done[j]).name@ == first.name@;
            assert(read[j + 1].name@ == read[0].name@);
        }
    }
    if last_read(done, file) {
        let i = choose|i: int|
            0 <= i < done.len() && #[trigger] done[i] == file && is_last_of_name(done, i);
        assert(read[i + 1] == file);
        assert forall|j: int| i + 1 < j < read.len() implies (#[trigger] read[j]).name@ != read[i
            + 1].name@ by {
            assert(read[j] == done[j - 1]);
        }
    }
    if file == first && !name_read(done, first.name@) {
        assert(read[0] == file);
        assert forall|j: int| 0 < j < read.len() implies (#[trigger] read[j]).name@
            != read[0].name@ by {
            assert(read[j] == done[j - 1]);
        }
    }
}

/// A name is among the themes kept exactly where it was read.
proof fn lemma_name_kept(themes: Seq<ThemeFile>, done: Seq<ThemeFile>, name: Seq<char>)
    requires
        keeps_last_of_each(themes, done),
    ensures
        name_read(done, name) == name_read(themes, name),
{
    if name_read(themes, name) {
        let k = choose|k: int| 0 <= k < themes.len() && (#[trigger] themes[k]).name@ == name;
        assert(themes.contains(themes[k]));
        let i = choose|i: int|
            0 <= i < done.len() && #[trigger] done[i] == themes[k] && is_last_of_name(done, i);
        assert(done[i].name@ == name);
    }
    if name_read(done, name) {
        let i = choose|i: int| 0 <= i < done.len() && (#[trigger] done[i]).name@ == name;
        lemma_last_exists(done, i);
        let l = choose|l: int|
            i <= l < done.len() && #[trigger] is_last_of_name(done, l) && done[l].name@
                == done[i].name@;
        assert(last_read(done, done[l]));
        assert(themes.contains(done[l]));
        let k = choose|k: int| 0 <= k < themes.len() && themes[k] == done[l];
        assert(themes[k].name@ == name);
    }
}

/// Whether `themes` holds an item after one was put in.
proof fn lemma_insert_contains(themes: Seq<ThemeFile>, at: int, added: ThemeFile, file: ThemeFile)
    requires
        0 <= at <= themes.len(),
    ensures
        themes.insert(at, added).contains(file) == (file == added || themes.contains(file)),
{
    let after = themes.insert(at, added);
    if after.contains(file) {
        let k = choose|k: int| 0 <= k < after.len() && after[k] == file;
        if k < at {
            assert(themes[k] == file);
        } else if k > at {
            assert(themes[k - 1] == file);
        }
    }
    if themes.contains(file) {
        let k = choose|k: int| 0 <= k < themes.len() && themes[k] == file;
        if k < at {
            assert(after[k] == file);
        } else {
            assert(after[k + 1] == file);
        }
    }
    assert(after[at] == added);
}

/// One more theme, read before all of `done`: it counts only where its name is
/// not among them.
proof fn lemma_read_before(
    themes: Seq<ThemeFile>,
    done: Seq<ThemeFile>,
    first: ThemeFile,
    at: int,
)
    requires
        keeps_last_of_each(themes, done),
        0 <= at <= themes.len(),
    ensures
        name_read(themes, first.name@) ==> keeps_last_of_each(themes, seq![first] + done),
        !name_read(themes, first.name@) ==> keeps_last_of_each(
            themes.insert(at, first),
            seq![first] + done,
        ),
{
    lemma_name_kept(themes, done, first.name@);
    let read = seq![first] + done;
    if name_read(themes, first.name@) {
        assert forall|file: ThemeFile| #[trigger] themes.contains(file) == last_read(
            read,
            file,
        ) by {
            lemma_last_read_before(done, first, file);
        }
    } else {
        let after = themes.insert(at, first);
        assert forall|file: ThemeFile| #[trigger] after.contains(file) == last_read(
            read,
            file,
        ) by {
            lemma_last_read_before(done, first, file);
            lemma_insert_contains(themes, at, first, file);
        }
    }
}

/// A theme put where it belongs keeps the order.
proof fn lemma_insert_in_order(themes: Seq<ThemeFile>, at: int, file: ThemeFile)
    requires
        in_name_order(themes),
        0 <= at <= themes.len(),
        forall|k: int| 0 <= k < at ==> text::comes_before((#[trigger] themes[k]).name@, file.name@),
        forall|k: int|
            at <= k < themes.len() ==> text::comes_before(file.name@, (#[trigger] themes[k]).name@),
    ensures
        in_name_order(themes.insert(at, file)),
{
    let after = themes.insert(at, file);
    assert forall|i: int, j: int| 0 <= i < j < after.len() implies text::comes_before(
        (#[trigger] after[i]).name@,
        (#[trigger] after[j]).name@,
    ) by {
        let i0 = if i < at {
            i
        } else {
            i - 1
        };
        let j0 = if j < at {
            j
        } else {
            j - 1
        };
        if i != at {
            assert(after[i] == themes[i0]);
        }
        if j != at {
            assert(after[j] == themes[j0]);
        }
        if i != at && j != at {
            assert(text::comes_before(themes[i0].name@, themes[j0].name@));
        }
    }
}

/// Where a theme goes among those in order: how many come before it, and
/// whether its name is taken.
fn place_of(themes: &Vec<ThemeFile>, name: &str) -> (place: (usize, bool))
    requires
        in_name_order(themes@),
    ensures
        place.0 <= themes.len(),
        place.1 == name_read(themes@, name@),
        forall|k: int| 0 <= k < place.0 ==> text::comes_before((#[trigger] themes[k]).name@, name@),
        !place.1 ==> forall|k: int|
            place.0 <= k < themes.len() ==> text::comes_before(name@, (#[trigger] themes[k]).name@),
{
    let mut i: usize = 0;
    while i < themes.len() && text_before(themes[i].name.as_str(), name)
        invariant
            i <= themes.len(),
            forall|k: int| 0 <= k < i ==> text::comes_before((#[trigger] themes[k]).name@, name@),
        decreases themes.len() - i,
    {
        i += 1;
    }
    let taken = i < themes.len() && same(themes[i].name.as_str(), name);
    proof {
        assert forall|k: int| 0 <= k < themes.len() implies (taken || (#[trigger] themes[k]).name@
            != name@) by {
            text::lemma_text_order(themes[k].name@, name@, name@);
            if k > i && i < themes.len() {
                text::lemma_text_order(themes[i as int].name@, themes[k].name@, name@);
                text::lemma_text_order(themes[i as int].name@, name@, name@);
            }
        }
        if !taken {
            assert forall|k: int| i <= k < themes.len() implies text::comes_before(
                name@,
                (#[trigger] themes[k]).name@,
            ) by {
                text::lemma_text_order(themes[i as int].name@, name@, name@);
                if k > i {
                    text::lemma_text_order(name@, themes[i as int].name@, themes[k].name@);
                }
            }
        }
    }
    (i, taken)
}

/// Puts the themes of all directories together: of two with one name, the one
/// read later stays, so a user's theme takes the place of a shipped one.
pub fn merge_directories(directories: Vec<Vec<ThemeFile>>) -> (merged: DiskThemes)
    ensures
        merged.well_formed(),
        keeps_last_of_each(merged.themes@, all_read(directories@)),
{
    let ghost everything = all_read(directories@);
    let mut directories = directories;
    let mut themes: Vec<ThemeFile> = Vec::new();
    let ghost mut done: Seq<ThemeFile> = Seq::empty();
    assert(everything =~= all_read(directories@) + done);
    while directories.len() > 0
        invariant
            everything == all_read(directories@) + done,
            in_name_order(themes@),
            keeps_last_of_each(themes@, done),
        decreases directories.len(),
    {
        let ghost before = directories@;
        let last = directories.pop();
        let mut directory: Vec<ThemeFile> = Vec::new();
        match last {
            Some(found) => {
                directory = found;
            },
            None => {},
        }
        assert(everything =~= all_read(directories@) + directory@ + done);
        while directory.len() > 0
            invariant
                everything == all_read(directories@) + directory@ + done,
                in_name_order(themes@),
                keeps_last_of_each(themes@, done),
            decreases directory.len(),
        {
            let ghost left = directory@;
            let next = directory.pop();
            if let Some(file) = next {
                let (at, taken) = place_of(&themes, file.name.as_str());
                proof {
                    lemma_read_before(themes@, done, file, at as int);
                    assert(left == directory@.push(file));
                    assert(everything =~= all_read(directories@) + directory@ + (seq![file] + done));
                    done = seq![file] + done;
                }
                if !taken {
                    proof {
                        lemma_insert_in_order(themes@, at as int, file);
                    }
                    themes.insert(at, file);
                }
            }
        }
        assert(everything =~= all_read(directories@) + done);
    }
    assert(everything =~= done);
    DiskThemes { themes }
}

/// Makes the themes read from each directory the ones available.
pub fn load(directories: Vec<Vec<ThemeFile>>, app: &mut App)
    ensures
        final(app).active == old(app).active,
        final(app).to_save == old(app).to_save,
        final(app).disk_themes matches Some(merged) && merged.well_formed() && keeps_last_of_each(
            merged.themes@,
            all_read(directories@),
        ),
{
    app.disk_themes = Some(merge_directories(directories));
}

// ---------------------------------------------------------------------------
// Choosing
// ---------------------------------------------------------------------------

/// Names with those added that are not among them yet.
pub open spec fn with_new(names: Seq<Seq<char>>, more: Seq<Seq<char>>) -> Seq<Seq<char>>
    decreases more.len(),
{
    if more.len() == 0 {
        names
    } else {
        let so_far = with_new(names, more.drop_last());
        if so_far.contains(more.last()) {
            so_far
        } else {
            so_far.push(more.last())
        }
    }
}

/// The names of the compiled-in themes.
pub open spec fn built_in_names() -> Seq<Seq<char>> {
    seq![
        ThemeVariant::Dark.saved(),
        ThemeVariant::Light.saved(),
        ThemeVariant::OneDarkPro.saved(),
        ThemeVariant::GitHubDark.saved(),
        ThemeVariant::GitHubLight.saved(),
    ]
}

/// The files that are available.
pub open spec fn available(app: theme::AppView) -> Seq<theme::FileView> {
    match app.disk_themes {
        Some(files) => files,
        None => Seq::empty(),
    }
}

/// Every name that can be chosen: the compiled-in themes first, then those on
/// disk.
pub fn selectable_names(app: &App) -> (names: Vec<String>)
    ensures
        names.deep_view() == with_new(built_in_names(), names_of(available(app@))),
{
    let mut names: Vec<String> = Vec::new();
    names.push(owned(ThemeVariant::Dark.name()));
    names.push(owned(ThemeVariant::Light.name()));
    names.push(owned(ThemeVariant::OneDarkPro.name()));
    names.push(owned(ThemeVariant::GitHubDark.name()));
    names.push(owned(ThemeVariant::GitHubLight.name()));
    assert(names.deep_view() =~= built_in_names());
    let found = match &app.disk_themes {
        Some(disk) => disk.names(),
        None => Vec::new(),
    };
    let ghost more = names_of(available(app@));
    assert(found.deep_view() =~= more);
    let mut i: usize = 0;
    assert(more.take(0) =~= Seq::<Seq<char>>::empty());
    while i < found.len()
        invariant
            i <= found.len(),
            found.deep_view() == more,
            names.deep_view() == with_new(built_in_names(), more.take(i as int)),
        decreases found.len() - i,
    {
        let ghost before = names.deep_view();
        assert(more.take(i + 1).drop_last() =~= more.take(i as int));
        assert(more.take(i + 1).last() == found[i as int]@);
        let known = text::contains_text(&names, found[i].as_str());
        assert(known == before.contains(found[i as int]@)) by {
            if known {
                let k = choose|k: int|
                    0 <= k < names.len() && (#[trigger] names[k])@ == found[i as int]@;
                assert(before[k] == found[i as int]@);
            }
            if before.contains(found[i as int]@) {
                let k = choose|k: int| 0 <= k < before.len() && before[k] == found[i as int]@;
                assert(names[k]@ == found[i as int]@);
            }
        }
        if !known {
            names.push(found[i].clone());
            assert(names.deep_view() =~= before.push(found[i as int]@));
        }
        i += 1;
    }
    assert(more.take(i as int) =~= more);
    names
}

/// The compiled-in theme that a toggle would go on from.
pub open spec fn resuming(app: theme::AppView) -> ThemeVariant {
    match app.active {
        Some(active) => active.variant,
        None => ThemeVariant::Dark,
    }
}

/// The name, where it is neither compiled in nor on disk.
pub open spec fn unrecognised(app: theme::AppView, name: Seq<char>) -> Option<Seq<char>> {
    if theme::choice_named(name) is Disk && index_of_name(available(app), name) is None {
        Some(name)
    } else {
        None
    }
}

/// With the theme of a name set. A name that is neither compiled in nor on
/// disk gives the default, and is not written over in the settings file.
pub open spec fn with_named(app: theme::AppView, name: Seq<char>) -> theme::AppView {
    match theme::choice_named(name) {
        theme::ChoiceView::BuiltIn(variant) => app.with_variant(variant),
        theme::ChoiceView::Disk(_) => match index_of_name(available(app), name) {
            Some(i) => app.with_file(available(app)[i], resuming(app)),
            None => app.with_fallback(),
        },
    }
}

/// Sets the theme that a settings file named, compiled in or on disk. The
/// toggle of a theme from disk goes on from where it was before. A name that
/// nothing has is handed back.
pub fn apply_named(name: &str, app: &mut App) -> (unknown: Option<String>)
    ensures
        final(app)@ == with_named(old(app)@, name@),
        unknown.deep_view() == unrecognised(old(app)@, name@),
{
    match ThemeChoice::from_name(name) {
        ThemeChoice::BuiltIn(variant) => {
            set_theme(variant, app);
            None
        },
        ThemeChoice::Disk(name) => {
            let resume = match &app.active {
                Some(active) => active.variant,
                None => ThemeVariant::default(),
            };
            let found: Option<(String, Theme)> = match &app.disk_themes {
                Some(disk) => match disk.get(name.as_str()) {
                    Some(file) => Some((file.name.clone(), Theme::from_file(file))),
                    None => None,
                },
                None => None,
            };
            assert(app.disk_themes is None ==> index_of_name(available(app@), name@) is None);
            match found {
                Some((chosen, colors)) => {
                    install(ThemeChoice::Disk(chosen), resume, colors, app);
                    None
                },
                None => {
                    fall_back(app);
                    Some(name)
                },
            }
        },
    }
}

/// Whether a name is a file's own: no compiled-in theme has it, so choosing it
/// gives the file.
pub open spec fn is_own(name: Seq<char>) -> bool {
    theme::variant_named(name) is None
}

/// The first name, from `from` on, that is a file's own.
pub open spec fn next_own(names: Seq<Seq<char>>, from: int) -> Option<int>
    decreases names.len() - from,
{
    if from < 0 || from >= names.len() {
        None
    } else if is_own(names[from]) {
        Some(from)
    } else {
        next_own(names, from + 1)
    }
}

/// The first name, from `from` on, that is a file's own.
fn find_own(names: &Vec<String>, from: usize) -> (found: Option<usize>)
    requires
        from <= names.len(),
    ensures
        match found {
            Some(i) => i < names.len() && next_own(names.deep_view(), from as int) == Some(i as int),
            None => next_own(names.deep_view(), from as int) is None,
        },
{
    let mut i: usize = from;
    while i < names.len()
        invariant
            i <= names.len(),
            next_own(names.deep_view(), i as int) == next_own(names.deep_view(), from as int),
        decreases names.len() - i,
    {
        assert(names.deep_view()[i as int] == names[i as int]@);
        if ThemeVariant::from_name(names[i].as_str()).is_none() {
            return Some(i);
        }
        i += 1;
    }
    None
}

/// What one step of the toggle does: the state after it, and what the status
/// bar calls the theme it came to. A file under a compiled-in theme's name is
/// stepped over, for its name gives that theme.
#[verifier::opaque]
pub open spec fn cycled(app: theme::AppView) -> (theme::AppView, Seq<char>) {
    let names = names_of(available(app));
    let step = |variant: ThemeVariant|
        (app.with_variant(variant.following()), variant.following().shown());
    if names.len() == 0 {
        step(app.active->0.variant)
    } else {
        match app.active->0.choice {
            theme::ChoiceView::BuiltIn(variant) => match next_own(names, 0) {
                Some(i) if variant.following() == ThemeVariant::Dark => (
                    with_named(app, names[i]),
                    names[i],
                ),
                _ => step(variant),
            },
            theme::ChoiceView::Disk(current) => {
                let next = match index_of_name(available(app), current) {
                    Some(i) => next_own(names, i + 1),
                    None => None,
                };
                match next {
                    Some(i) => (with_named(app, names[i]), names[i]),
                    None => (app.with_variant(ThemeVariant::Dark), ThemeVariant::Dark.shown()),
                }
            },
        }
    }
}

/// Goes on to the next theme and says what it is called: the compiled-in ones
/// in their order, then those on disk by name, then back to the start.
pub fn cycle(app: &mut App) -> (label: String)
    requires
        old(app).active is Some,
    ensures
        final(app)@ == cycled(old(app)@).0,
        label@ == cycled(old(app)@).1,
{
    reveal(cycled);
    let names = match &app.disk_themes {
        Some(disk) => disk.names(),
        None => Vec::new(),
    };
    assert(names.deep_view() =~= names_of(available(app@)));
    if names.len() == 0 {
        let next = app.theme_variant().next();
        set_theme(next, app);
        return owned(next.label());
    }
    match app.theme_choice() {
        ThemeChoice::BuiltIn(variant) => {
            let next = variant.next();
            if next == ThemeVariant::default() {
                if let Some(first) = find_own(&names, 0) {
                    let name = names[first].clone();
                    assert(names.deep_view()[first as int] == name@);
                    apply_named(name.as_str(), app);
                    return name;
                }
            }
            set_theme(next, app);
            owned(next.label())
        },
        ThemeChoice::Disk(current) => {
            let at = match &app.disk_themes {
                Some(disk) => disk.position(current.as_str()),
                None => None,
            };
            if let Some(i) = at {
                if let Some(following) = find_own(&names, i + 1) {
                    let name = names[following].clone();
                    assert(names.deep_view()[following as int] == name@);
                    apply_named(name.as_str(), app);
                    return name;
                }
            }
            set_theme(ThemeVariant::default(), app);
            owned(ThemeVariant::default().label())
        },
    }
}

// ---------------------------------------------------------------------------
// What holds whatever is on disk
// ---------------------------------------------------------------------------

/// A compiled-in theme can always be had by its name, whatever is on disk and
/// whatever was active.
pub proof fn law_built_in_is_always_available(app: theme::AppView, variant: ThemeVariant)
    ensures
        with_named(app, variant.saved()) == app.with_variant(variant),
{
    theme::law_variant_name_round_trip(variant);
}

/// A name that nothing has gives the default theme, is handed back, and stays
/// in the settings file: nothing is put down to be saved.
pub proof fn law_unknown_name_gives_default(app: theme::AppView, name: Seq<char>)
    requires
        theme::variant_named(name) is None,
        forall|i: int| 0 <= i < available(app).len() ==> (#[trigger] available(app)[i]).name
            != name,
    ensures
        with_named(app, name).active == app.with_variant(ThemeVariant::Dark).active,
        with_named(app, name).to_save == app.to_save,
        with_named(app, name).disk_themes == app.disk_themes,
        unrecognised(app, name) == Some(name),
{
    lemma_index_of_name(available(app), name, available(app).len() as int);
}

/// Choosing themes leaves the themes on disk alone.
pub proof fn law_choosing_keeps_files(app: theme::AppView, name: Seq<char>)
    ensures
        with_named(app, name).disk_themes == app.disk_themes,
        cycled(app).0.disk_themes == app.disk_themes,
        names_of(available(app)).no_duplicates() ==> coherent(with_named(app, name)),
{
    reveal(cycled);
}

/// Every name offered is the name of the theme that choosing it sets.
pub proof fn law_offered_name_is_applied(app: theme::AppView, name: Seq<char>)
    requires
        built_in_names().contains(name) || names_of(available(app)).contains(name),
    ensures
        with_named(app, name).active matches Some(active) && active.choice.name() == name,
{
    if built_in_names().contains(name) {
        let i = choose|i: int| 0 <= i < built_in_names().len() && built_in_names()[i] == name;
        assert(theme::variant_named(name) is Some);
    } else {
        let i = choose|i: int|
            0 <= i < names_of(available(app)).len() && names_of(available(app))[i] == name;
        lemma_index_found(available(app), name, i);
    }
}

proof fn lemma_index_found(files: Seq<theme::FileView>, name: Seq<char>, i: int)
    requires
        0 <= i < files.len(),
        files[i].name == name,
    ensures
        index_of_name(files, name) matches Some(k) && 0 <= k < files.len() && files[k].name == name,
    decreases files.len(),
{
    if files[0].name != name {
        lemma_index_found(files.skip(1), name, i - 1);
    }
}

/// No name is offered twice.
pub proof fn law_offered_names_differ(more: Seq<Seq<char>>)
    ensures
        with_new(built_in_names(), more).no_duplicates(),
        forall|k: int| 0 <= k < more.len() ==> with_new(built_in_names(), more).contains(
            #[trigger] more[k],
        ),
    decreases more.len(),
{
    let names = with_new(built_in_names(), more);
    if more.len() == 0 {
        lemma_built_in_names_differ();
    } else {
        let fewer = more.drop_last();
        law_offered_names_differ(fewer);
        let so_far = with_new(built_in_names(), fewer);
        assert forall|k: int| 0 <= k < more.len() implies names.contains(#[trigger] more[k]) by {
            if k < fewer.len() {
                assert(fewer[k] == more[k]);
                let at = choose|at: int| 0 <= at < so_far.len() && so_far[at] == more[k];
                assert(names[at] == more[k]);
            } else if !so_far.contains(more.last()) {
                assert(names[so_far.len() as int] == more[k]);
            }
        }
    }
}

proof fn lemma_built_in_names_differ()
    ensures
        built_in_names().no_duplicates(),
{
    let all = seq![
        ThemeVariant::Dark,
        ThemeVariant::Light,
        ThemeVariant::OneDarkPro,
        ThemeVariant::GitHubDark,
        ThemeVariant::GitHubLight,
    ];
    assert forall|i: int, j: int| 0 <= i < 5 && 0 <= j < 5 && i != j implies built_in_names()[i]
        != built_in_names()[j] by {
        theme::law_variant_name_round_trip(all[i]);
        theme::law_variant_name_round_trip(all[j]);
        assert(built_in_names()[i] == all[i].saved());
        assert(built_in_names()[j] == all[j].saved());
        assert(all[i] != all[j]);
    }
}

/// The state after `n` steps of the toggle.
pub open spec fn cycled_times(app: theme::AppView, n: nat) -> theme::AppView
    decreases n,
{
    if n == 0 {
        app
    } else {
        cycled(cycled_times(app, (n - 1) as nat)).0
    }
}

/// The names among `names` that are a file's own, in order.
pub open spec fn own_names(names: Seq<Seq<char>>) -> Seq<Seq<char>>
    decreases names.len(),
{
    if names.len() == 0 {
        Seq::empty()
    } else if is_own(names.last()) {
        own_names(names.drop_last()).push(names.last())
    } else {
        own_names(names.drop_last())
    }
}

/// The themes in the order of the toggle: the compiled-in ones, then every one
/// on disk that has a name of its own, by name.
pub open spec fn ring(files: Seq<theme::FileView>) -> Seq<theme::ChoiceView> {
    let own = own_names(names_of(files));
    seq![
        theme::ChoiceView::BuiltIn(ThemeVariant::Dark),
        theme::ChoiceView::BuiltIn(ThemeVariant::OneDarkPro),
        theme::ChoiceView::BuiltIn(ThemeVariant::GitHubDark),
        theme::ChoiceView::BuiltIn(ThemeVariant::Light),
        theme::ChoiceView::BuiltIn(ThemeVariant::GitHubLight),
    ] + Seq::new(own.len(), |i: int| theme::ChoiceView::Disk(own[i]))
}

/// Whether the state is one that choosing themes leads to: a compiled-in theme
/// is resumed from where it is, and no two files have one name.
pub open spec fn coherent(app: theme::AppView) -> bool {
    &&& app.active matches Some(active) && (active.choice matches theme::ChoiceView::BuiltIn(variant)
        ==> active.variant == variant)
    &&& names_of(available(app)).no_duplicates()
}

/// Where `next_own` looks, no name counts before the one it finds.
proof fn lemma_next_own(names: Seq<Seq<char>>, from: int)
    requires
        0 <= from <= names.len(),
    ensures
        match next_own(names, from) {
            Some(i) => from <= i < names.len() && is_own(names[i]) && own_names(names.take(i))
                == own_names(names.take(from)),
            None => own_names(names) == own_names(names.take(from)),
        },
    decreases names.len() - from,
{
    assert(names.take(names.len() as int) =~= names);
    if from < names.len() && !is_own(names[from]) {
        lemma_next_own(names, from + 1);
        assert(names.take(from + 1).drop_last() =~= names.take(from));
    }
}

/// The own names up to a place are the first of them all.
proof fn lemma_own_before(names: Seq<Seq<char>>, i: int)
    requires
        0 <= i < names.len(),
        is_own(names[i]),
    ensures
        own_names(names.take(i)).len() < own_names(names).len(),
        own_names(names)[own_names(names.take(i)).len() as int] == names[i],
        own_names(names.take(i + 1)).len() == own_names(names.take(i)).len() + 1,
    decreases names.len(),
{
    assert(names.take(i + 1).drop_last() =~= names.take(i));
    let fewer = names.drop_last();
    if i < fewer.len() {
        lemma_own_before(fewer, i);
        assert(fewer.take(i) =~= names.take(i));
    } else {
        assert(names.take(i) =~= fewer);
    }
}

/// Every own name is the name at some place.
proof fn lemma_own_place(names: Seq<Seq<char>>, rank: int) -> (i: int)
    requires
        0 <= rank < own_names(names).len(),
    ensures
        0 <= i < names.len(),
        is_own(names[i]),
        names[i] == own_names(names)[rank],
        own_names(names.take(i)).len() == rank,
    decreases names.len(),
{
    let fewer = names.drop_last();
    if rank < own_names(fewer).len() {
        let i = lemma_own_place(fewer, rank);
        assert(fewer.take(i) =~= names.take(i));
        i
    } else {
        assert(names.take(names.len() - 1) =~= fewer);
        names.len() - 1
    }
}

/// A name that no other file has leads to its file.
proof fn lemma_named_file(app: theme::AppView, i: int)
    requires
        0 <= i < available(app).len(),
        names_of(available(app)).no_duplicates(),
    ensures
        index_of_name(available(app), names_of(available(app))[i]) == Some(i),
        is_own(names_of(available(app))[i]) ==> with_named(app, names_of(available(app))[i])
            == app.with_file(available(app)[i], resuming(app)),
{
    let files = available(app);
    let names = names_of(files);
    assert forall|k: int| 0 <= k < i implies (#[trigger] files[k]).name != names[i] by {
        assert(names[k] != names[i]);
    }
    lemma_index_of_name(files, names[i], i);
}

/// One step of the toggle goes on to the next theme of the ring, wherever it
/// starts: past the last one it comes back to the first.
pub proof fn law_toggle_follows_the_ring(app: theme::AppView, at: int)
    requires
        coherent(app),
        0 <= at < ring(available(app)).len(),
        app.active->0.choice == ring(available(app))[at],
    ensures
        coherent(cycled(app).0),
        available(cycled(app).0) == available(app),
        cycled(app).0.active->0.choice == ring(available(app))[if at + 1 < ring(
            available(app),
        ).len() {
            at + 1
        } else {
            0
        }],
{
    reveal(cycled);
    let names = names_of(available(app));
    lemma_next_own(names, 0);
    assert(names.take(0) =~= Seq::<Seq<char>>::empty());
    let own = own_names(names);
    let all = ring(available(app));
    let choice = cycled(app).0.active->0.choice;
    assert(forall|k: int| 5 <= k < all.len() ==> #[trigger] all[k] == theme::ChoiceView::Disk(own[k - 5]));
    if at < 5 {
        if at == 4 {
            if let Some(i) = next_own(names, 0) {
                lemma_own_before(names, i);
                lemma_named_file(app, i);
                assert(own[0] == names[i]);
                assert(choice == all[5]);
            } else {
                assert(all.len() == 5);
                assert(choice == all[0]);
            }
        } else {
            assert(at == 0 || at == 1 || at == 2 || at == 3);
            assert(all[0] == theme::ChoiceView::BuiltIn(ThemeVariant::Dark));
            assert(all[1] == theme::ChoiceView::BuiltIn(ThemeVariant::OneDarkPro));
            assert(all[2] == theme::ChoiceView::BuiltIn(ThemeVariant::GitHubDark));
            assert(all[3] == theme::ChoiceView::BuiltIn(ThemeVariant::Light));
            assert(all[4] == theme::ChoiceView::BuiltIn(ThemeVariant::GitHubLight));
            assert(choice == all[at + 1]);
        }
    } else {
        assert(all[at] == theme::ChoiceView::Disk(own[at - 5]));
        let i = lemma_own_place(names, at - 5);
        assert(app.active->0.choice == theme::ChoiceView::Disk(names[i]));
        lemma_named_file(app, i);
        lemma_own_before(names, i);
        lemma_next_own(names, i + 1);
        if let Some(next) = next_own(names, i + 1) {
            lemma_own_before(names, next);
            lemma_named_file(app, next);
            assert(own[at - 4] == names[next]);
            assert(choice == all[at + 1]);
        } else {
            assert(own.len() == at - 4);
            assert(choice == all[0]);
        }
    }
}

/// Wherever the toggle starts, even on a file that is gone or that nothing can
/// choose, one step leads into the ring.
pub proof fn law_toggle_leads_into_the_ring(app: theme::AppView)
    requires
        coherent(app),
    ensures
        coherent(cycled(app).0),
        ring(available(app)).contains(cycled(app).0.active->0.choice),
{
    reveal(cycled);
    let names = names_of(available(app));
    let all = ring(available(app));
    let choice = cycled(app).0.active->0.choice;
    assert(all[0] == theme::ChoiceView::BuiltIn(ThemeVariant::Dark));
    assert(all[1] == theme::ChoiceView::BuiltIn(ThemeVariant::OneDarkPro));
    assert(all[2] == theme::ChoiceView::BuiltIn(ThemeVariant::GitHubDark));
    assert(all[3] == theme::ChoiceView::BuiltIn(ThemeVariant::Light));
    assert(all[4] == theme::ChoiceView::BuiltIn(ThemeVariant::GitHubLight));
    if let theme::ChoiceView::Disk(name) = choice {
        let from = match app.active->0.choice {
            theme::ChoiceView::BuiltIn(_) => 0,
            theme::ChoiceView::Disk(current) => index_of_name(available(app), current)->0 + 1,
        };
        if let theme::ChoiceView::Disk(current) = app.active->0.choice {
            lemma_index_in_range(available(app), current);
        }
        lemma_next_own(names, from);
        let i = next_own(names, from)->0;
        lemma_named_file(app, i);
        lemma_own_before(names, i);
        assert(all[5 + own_names(names.take(i)).len() as int] == choice);
    }
}

proof fn lemma_index_in_range(files: Seq<theme::FileView>, name: Seq<char>)
    ensures
        index_of_name(files, name) matches Some(i) ==> 0 <= i < files.len(),
    decreases files.len(),
{
    if files.len() > 0 && files[0].name != name {
        lemma_index_in_range(files.skip(1), name);
    }
}

/// The toggle goes through the compiled-in themes, then through every theme on
/// disk that has a name of its own, and comes back to where it started,
/// wherever that is.
pub proof fn law_cycle_reaches_disk_and_returns(app: theme::AppView, at: int, n: nat)
    requires
        coherent(app),
        0 <= at < ring(available(app)).len(),
        app.active->0.choice == ring(available(app))[at],
    ensures
        coherent(cycled_times(app, n)),
        available(cycled_times(app, n)) == available(app),
        cycled_times(app, n).active->0.choice == ring(available(app))[(at + n) % (ring(
            available(app),
        ).len() as int)],
        forall|i: int|
            0 <= i < available(app).len() && is_own((#[trigger] available(app)[i]).name) ==> ring(
                available(app),
            ).contains(theme::ChoiceView::Disk(available(app)[i].name)),
    decreases n,
{
    let all = ring(available(app));
    let len = all.len() as int;
    if n == 0 {
        assert(at % len == at) by (nonlinear_arith)
            requires
                0 <= at < len,
        ;
    } else {
        let before = cycled_times(app, (n - 1) as nat);
        law_cycle_reaches_disk_and_returns(app, at, (n - 1) as nat);
        let k = (at + n - 1) % len;
        assert(0 <= k < len) by (nonlinear_arith)
            requires
                len > 0,
                k == (at + n - 1) % len,
        ;
        law_toggle_follows_the_ring(before, k);
        assert((at + n) % len == (if k + 1 < len {
            k + 1
        } else {
            0
        })) by {
            vstd::arithmetic::div_mod::lemma_fundamental_div_mod(at + n - 1, len);
            let q = (at + n - 1) / len;
            if k + 1 < len {
                vstd::arithmetic::div_mod::lemma_fundamental_div_mod_converse(
                    at + n,
                    len,
                    q,
                    k + 1,
                );
            } else {
                assert(len * (q + 1) == len * q + len) by (nonlinear_arith);
                assert(q * len == len * q) by (nonlinear_arith);
                assert((q + 1) * len == len * (q + 1)) by (nonlinear_arith);
                vstd::arithmetic::div_mod::lemma_fundamental_div_mod_converse(
                    at + n,
                    len,
                    q + 1,
                    0,
                );
            }
        }
    }
    let names = names_of(available(app));
    assert forall|i: int|
        0 <= i < available(app).len() && is_own(
            (#[trigger] available(app)[i]).name,
        ) implies all.contains(theme::ChoiceView::Disk(available(app)[i].name)) by {
        assert(names[i] == available(app)[i].name);
        lemma_own_before(names, i);
        assert(all[5 + own_names(names.take(i)).len() as int] == theme::ChoiceView::Disk(names[i]));
    }
}

/// As many steps as there are themes in the ring lead back to the start, and
/// every theme of the ring is reached on the way.
pub proof fn law_cycle_visits_all(app: theme::AppView, at: int, goal: int)
    requires
        coherent(app),
        0 <= at < ring(available(app)).len(),
        0 <= goal < ring(available(app)).len(),
        app.active->0.choice == ring(available(app))[at],
    ensures
        cycled_times(app, ring(available(app)).len()).active->0.choice == app.active->0.choice,
        exists|n: nat|
            n < ring(available(app)).len() && (#[trigger] cycled_times(app, n)).active->0.choice
                == ring(available(app))[goal],
{
    let len = ring(available(app)).len() as int;
    law_cycle_reaches_disk_and_returns(app, at, len as nat);
    vstd::arithmetic::div_mod::lemma_mod_add_multiples_vanish(at, len);
    vstd::arithmetic::div_mod::lemma_small_mod(at as nat, len as nat);
    let n: nat = (if at <= goal {
        goal - at
    } else {
        goal - at + len
    }) as nat;
    law_cycle_reaches_disk_and_returns(app, at, n);
    vstd::arithmetic::div_mod::lemma_mod_add_multiples_vanish(goal, len);
    vstd::arithmetic::div_mod::lemma_small_mod(goal as nat, len as nat);
    assert(cycled_times(app, n).active->0.choice == ring(available(app))[goal]);
}

/// With nothing on disk the toggle walks the compiled-in themes and comes back.
pub proof fn law_cycle_without_disk_returns(app: theme::AppView)
    requires
        app.active is Some,
        available(app).len() == 0,
    ensures
        cycled_times(app, 5).active matches Some(active) && active.variant
            == app.active->0.variant,
{
    reveal(cycled);
    reveal_with_fuel(cycled_times, 6);
}

/// Themes read from directories have names of their own once merged: each name
/// once.
pub proof fn law_merged_names_differ(themes: Seq<ThemeFile>)
    requires
        in_name_order(themes),
    ensures
        forall|i: int, j: int|
            0 <= i < j < themes.len() ==> (#[trigger] themes[i]).name@ != (
            #[trigger] themes[j]).name@,
{
    assert forall|i: int, j: int| 0 <= i < j < themes.len() implies (#[trigger] themes[i]).name@ != (
    #[trigger] themes[j]).name@ by {
        text::lemma_text_order(themes[i].name@, themes[j].name@, themes[j].name@);
    }
}

/// A theme is found by the first file of its name, and none is found exactly
/// where no file has that name.
pub proof fn law_first_file_of_a_name(themes: Seq<theme::FileView>, name: Seq<char>)
    ensures
        index_of_name(themes, name) matches Some(i) ==> 0 <= i < themes.len() && themes[i].name
            == name && forall|k: int| 0 <= k < i ==> (#[trigger] themes[k]).name != name,
        index_of_name(themes, name) is None ==> forall|k: int|
            0 <= k < themes.len() ==> (#[trigger] themes[k]).name != name,
    decreases themes.len(),
{
    if themes.len() > 0 && themes[0].name != name {
        let rest = themes.skip(1);
        law_first_file_of_a_name(rest, name);
        if let Some(i) = index_of_name(rest, name) {
            assert(themes[i + 1] == rest[i]);
            assert forall|k: int| 0 <= k < i + 1 implies (#[trigger] themes[k]).name != name by {
                if k > 0 {
                    assert(rest[k - 1] == themes[k]);
                }
            }
        } else {
            assert forall|k: int| 0 <= k < themes.len() implies (
            #[trigger] themes[k]).name != name by {
                if k > 0 {
                    assert(rest[k - 1] == themes[k]);
                }
            }
        }
    }
}

/// A file's theme that is chosen by name is applied with its own colours, going
/// on from the compiled-in theme that was active; only a name that nothing has
/// is told as unknown.
pub proof fn law_named_file_is_applied(app: theme::AppView, name: Seq<char>, i: int)
    requires
        theme::variant_named(name) is None,
        app.disk_themes is Some,
        0 <= i < app.disk_themes->0.len(),
        app.disk_themes->0[i].name == name,
        forall|k: int| 0 <= k < i ==> (#[trigger] app.disk_themes->0[k]).name != name,
    ensures
        with_named(app, name).active == Some(
            (theme::ActiveView {
                choice: theme::ChoiceView::Disk(name),
                variant: if app.active is Some {
                    app.active->0.variant
                } else {
                    ThemeVariant::Dark
                },
                theme: app.disk_themes->0[i].theme(),
            }),
        ),
        unrecognised(app, name) is None,
{
    lemma_index_of_name(app.disk_themes->0, name, i);
}

/// No compiled-in theme's name is told as unknown.
pub proof fn law_built_in_is_never_unknown(app: theme::AppView, variant: ThemeVariant)
    ensures
        unrecognised(app, variant.saved()) is None,
{
    theme::law_variant_name_round_trip(variant);
}

/// The names on offer begin with those that were there, and the others follow in
/// order, each once.
pub proof fn law_new_names_follow(names: Seq<Seq<char>>, more: Seq<Seq<char>>, name: Seq<char>)
    ensures
        with_new(names, more).len() >= names.len(),
        with_new(names, more).take(names.len() as int) == names,
        with_new(names, more).contains(name) <==> names.contains(name) || more.contains(name),
        with_new(names, more.push(name)) == (if with_new(names, more).contains(name) {
            with_new(names, more)
        } else {
            with_new(names, more).push(name)
        }),
    decreases more.len(),
{
    assert(more.push(name).drop_last() =~= more);
    if more.len() == 0 {
        assert(names.take(names.len() as int) =~= names);
    } else {
        law_new_names_follow(names, more.drop_last(), name);
        let so_far = with_new(names, more.drop_last());
        let all = with_new(names, more);
        assert(all.take(names.len() as int) =~= so_far.take(names.len() as int));
        if so_far.contains(name) {
            let k = choose|k: int| 0 <= k < so_far.len() && so_far[k] == name;
            assert(all[k] == name);
        }
        if more.last() == name {
            if !so_far.contains(name) {
                assert(all[all.len() - 1] == name);
            }
            assert(more[more.len() - 1] == name);
        }
        if more.drop_last().contains(name) {
            let k = choose|k: int|
                0 <= k < more.drop_last().len() && more.drop_last()[k] == name;
            assert(more[k] == name);
        }
        if all.contains(name) && !so_far.contains(name) {
            let k = choose|k: int| 0 <= k < all.len() && all[k] == name;
            assert(k == so_far.len());
        }
        if more.contains(name) && more.last() != name {
            let k = choose|k: int| 0 <= k < more.len() && more[k] == name;
            assert(more.drop_last()[k] == name);
        }
    }
}

/// The themes of one's own are those without a compiled-in name, in order.
pub proof fn law_own_themes_are_picked(names: Seq<Seq<char>>)
    ensures
        own_names(names) == names.filter(|name: Seq<char>| theme::variant_named(name) is None),
    decreases names.len(),
{
    reveal(Seq::filter);
    if names.len() > 0 {
        law_own_themes_are_picked(names.drop_last());
    }
}

/// What was read is read of one directory after the other.
pub proof fn law_directories_are_read_in_order(a: Seq<Vec<ThemeFile>>, b: Seq<Vec<ThemeFile>>)
    ensures
        all_read(a + b) == all_read(a) + all_read(b),
        forall|one: Vec<ThemeFile>| #[trigger] all_read(seq![one]) == one@,
    decreases b.len(),
{
    reveal_with_fuel(all_read, 2);
    assert forall|one: Vec<ThemeFile>| #[trigger] all_read(seq![one]) == one@ by {
        assert(seq![one].drop_last() =~= Seq::<Vec<ThemeFile>>::empty());
        assert(all_read(seq![one].drop_last()) =~= Seq::<ThemeFile>::empty());
        assert(Seq::<ThemeFile>::empty() + one@ =~= one@);
    }
    if b.len() == 0 {
        assert(a + b =~= a);
        assert(all_read(a) + all_read(b) =~= all_read(a));
    } else {
        law_directories_are_read_in_order(a, b.drop_last());
        assert((a + b).drop_last() =~= a + b.drop_last());
        assert(all_read(a + b) =~= all_read(a) + all_read(b));
    }
}

/// The theme that a toggle leads to is the one that it tells.
pub proof fn law_toggle_tells_where_it_led(app: theme::AppView)
    requires
        coherent(app),
    ensures
        cycled(app).0.active matches Some(active) && {
            &&& active.choice matches theme::ChoiceView::BuiltIn(variant) ==> cycled(app).1
                == variant.shown()
            &&& active.choice matches theme::ChoiceView::Disk(name) ==> cycled(app).1 == name
        },
{
    reveal(cycled);
    let names = names_of(available(app));
    lemma_next_own(names, 0);
    if let theme::ChoiceView::Disk(current) = app.active->0.choice {
        lemma_index_in_range(available(app), current);
        if let Some(i) = index_of_name(available(app), current) {
            lemma_next_own(names, i + 1);
            if let Some(k) = next_own(names, i + 1) {
                lemma_named_file(app, k);
            }
        }
    }
    if let Some(k) = next_own(names, 0) {
        lemma_named_file(app, k);
    }
}

/// Of the themes that were read, the last one of each name is kept and no other
/// of that name; nothing is kept that was not read.
pub proof fn law_last_read_theme_is_kept(
    themes: Seq<ThemeFile>,
    read: Seq<ThemeFile>,
    i: int,
    k: int,
)
    requires
        in_name_order(themes),
        keeps_last_of_each(themes, read),
        0 <= i < read.len(),
        forall|j: int| i < j < read.len() ==> (#[trigger] read[j]).name@ != read[i].name@,
        0 <= k < themes.len(),
    ensures
        themes.contains(read[i]),
        themes[k].name@ == read[i].name@ ==> themes[k] == read[i],
        read.contains(themes[k]),
{
    assert(is_last_of_name(read, i));
    assert(last_read(read, read[i]));
    assert(themes.contains(read[i]));
    law_merged_names_differ(themes);
    let at = choose|at: int| 0 <= at < themes.len() && themes[at] == read[i];
    assert(themes[at].name@ == read[i].name@);
    let file = themes[k];
    assert(themes.contains(file));
    assert(last_read(read, file));
    let l = choose|l: int|
        0 <= l < read.len() && #[trigger] read[l] == file && is_last_of_name(read, l);
    assert(read[l] == file);
}

} // verus!
