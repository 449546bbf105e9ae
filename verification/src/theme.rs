//! Themes: which file of a theme directory holds what, how a theme is put
//! together from what was read, which style sheet applies, and how the window
//! sits on the screen.

use vstd::prelude::*;
use vstd::string::*;
use crate::table::{keys_are_unique, position_of, put, table_map, unique_keys};
use crate::text::same_text;

verus! {

/// A theme in memory.
#[derive(Clone, Debug, PartialEq, Eq)]
pub struct Theme {
    /// Layout of the window.
    pub layout: String,
    /// Layout of the key binding hints.
    pub keybind: String,
    /// Layout of the preview.
    pub preview: String,
    /// Path of the SCSS source, compiled when the theme is applied.
    pub scss: Option<String>,
    /// Path of the CSS file.
    pub css: Option<String>,
    /// Layouts of list entries, by provider.
    pub items: Vec<(String, String)>,
    /// Layouts of grid entries, by provider.
    pub grid_items: Vec<(String, String)>,
}

/// One file of a theme directory as it was found.
#[derive(Clone, Debug, PartialEq, Eq)]
pub struct ThemeEntry {
    /// Name of the file.
    pub name: String,
    /// Path of the file.
    pub path: String,
    /// What was read from it; `None` where it could not be read.
    pub content: Option<String>,
}

/// A theme as plain values.
pub struct ThemeModel {
    pub layout: Seq<char>,
    pub keybind: Seq<char>,
    pub preview: Seq<char>,
    pub scss: Option<Seq<char>>,
    pub css: Option<Seq<char>>,
    pub items: Map<Seq<char>, String>,
    pub grid_items: Map<Seq<char>, String>,
}

/// What a file of a theme directory holds, by its name.
pub enum FileRole {
    Scss,
    Css,
    Layout,
    Keybind,
    Preview,
    /// Layout of grid entries of the provider named.
    GridItem(Seq<char>),
    /// Layout of list entries of the provider named.
    Item(Seq<char>),
    /// The name of an entry layout that leaves no room for a provider: a
    /// theme with such a file is not loaded.
    Broken,
    /// Nothing that a theme uses.
    Other,
}

/// What a file of a theme directory holds, by its name.
#[derive(Clone, Debug, PartialEq, Eq)]
pub enum ThemeFile {
    Scss,
    Css,
    Layout,
    Keybind,
    Preview,
    GridItem(String),
    Item(String),
    Broken,
    Other,
}

/// The style sheet that applies.
#[derive(Clone, Debug, PartialEq, Eq)]
pub enum CssSource {
    /// CSS compiled from the theme's SCSS.
    Compiled(String),
    /// The theme's CSS file, by its path.
    File(String),
    /// The built-in style sheet.
    BuiltIn,
}

/// How the keyboard is shared with other windows.
#[derive(Clone, Copy, Debug, PartialEq, Eq, Structural)]
pub enum KeyboardMode {
    Exclusive,
    OnDemand,
}

/// What the configuration says of the window's place.
#[derive(Clone, Copy, Debug, PartialEq, Eq, Structural)]
pub struct ShellConfig {
    pub force_keyboard_focus: bool,
    pub anchor_left: bool,
    pub anchor_right: bool,
    pub anchor_top: bool,
    pub anchor_bottom: bool,
}

/// How the window is set up.
#[derive(Clone, Copy, Debug, PartialEq, Eq, Structural)]
pub enum ShellPlan {
    /// Without layer shell: an ordinary window with an empty title bar.
    Titlebar,
    /// On the overlay layer, with no exclusive zone of its own.
    Overlay {
        exclusive_zone: i32,
        keyboard: KeyboardMode,
        anchor_left: bool,
        anchor_right: bool,
        anchor_top: bool,
        anchor_bottom: bool,
    },
}

/// Whether `s` starts with `p`.
pub open spec fn has_prefix(s: Seq<char>, p: Seq<char>) -> bool {
    p.len() <= s.len() && s.subrange(0, p.len() as int) == p
}

/// Whether `s` ends with `p`.
pub open spec fn has_suffix(s: Seq<char>, p: Seq<char>) -> bool {
    p.len() <= s.len() && s.subrange(s.len() - p.len(), s.len() as int) == p
}

/// The role of a file name. Entry layouts are named `item_`, the provider,
/// and `_grid.xml` for grids or `.xml` for lists.
pub open spec fn role_of(name: Seq<char>) -> FileRole {
    if name == "style.scss"@ {
        FileRole::Scss
    } else if name == "style.css"@ {
        FileRole::Css
    } else if name == "layout.xml"@ {
        FileRole::Layout
    } else if name == "keybind.xml"@ {
        FileRole::Keybind
    } else if name == "preview.xml"@ {
        FileRole::Preview
    } else if has_prefix(name, "item_"@) && has_suffix(name, "_grid.xml"@) {
        if name.len() >= "item_"@.len() + "_grid.xml"@.len() {
            FileRole::GridItem(
                name.subrange("item_"@.len() as int, name.len() - "_grid.xml"@.len()),
            )
        } else {
            FileRole::Broken
        }
    } else if has_prefix(name, "item_"@) && has_suffix(name, ".xml"@) {
        if name.len() >= "item_"@.len() + ".xml"@.len() {
            FileRole::Item(name.subrange("item_"@.len() as int, name.len() - ".xml"@.len()))
        } else {
            FileRole::Broken
        }
    } else {
        FileRole::Other
    }
}

/// A theme after one file of its directory was taken in. Style sheets are
/// noted by their path. A layout needs its content: where that could not be
/// read, the theme is not loaded.
pub open spec fn apply_file(t: ThemeModel, entry: ThemeEntry) -> Option<ThemeModel> {
    let content = entry.content;
    match role_of(entry.name@) {
        FileRole::Scss => Some(ThemeModel { scss: Some(entry.path@), ..t }),
        FileRole::Css => Some(ThemeModel { css: Some(entry.path@), ..t }),
        FileRole::Layout => match content {
            Some(c) => Some(ThemeModel { layout: c@, ..t }),
            None => None,
        },
        FileRole::Keybind => match content {
            Some(c) => Some(ThemeModel { keybind: c@, ..t }),
            None => None,
        },
        FileRole::Preview => match content {
            Some(c) => Some(ThemeModel { preview: c@, ..t }),
            None => None,
        },
        FileRole::GridItem(key) => match content {
            Some(c) => Some(ThemeModel { grid_items: t.grid_items.insert(key, c), ..t }),
            None => None,
        },
        FileRole::Item(key) => match content {
            Some(c) => Some(ThemeModel { items: t.items.insert(key, c), ..t }),
            None => None,
        },
        FileRole::Broken => None,
        FileRole::Other => Some(t),
    }
}

/// A theme after the first `n` files were taken in, in their order.
pub open spec fn theme_after(t: ThemeModel, files: Seq<ThemeEntry>, n: int) -> Option<ThemeModel>
    decreases n,
{
    if n <= 0 {
        Some(t)
    } else {
        match theme_after(t, files, n - 1) {
            Some(t1) => apply_file(t1, files[n - 1]),
            None => None,
        }
    }
}

/// The entry layouts of the first `n` providers by provider name: the grid
/// layouts or the list layouts. A later provider of the same name wins.
pub open spec fn provider_layouts(
    providers: Seq<(String, String, String)>,
    grid: bool,
    n: int,
) -> Map<Seq<char>, String>
    decreases n,
{
    if n <= 0 {
        Map::empty()
    } else {
        provider_layouts(providers, grid, n - 1).insert(
            providers[n - 1].0@,
            if grid {
                providers[n - 1].2
            } else {
                providers[n - 1].1
            },
        )
    }
}

/// Whether `name` is the name of one of the providers.
pub open spec fn names_provider(providers: Seq<(String, String, String)>, name: Seq<char>) -> bool {
    exists|i: int| 0 <= i < providers.len() && (#[trigger] providers[i]).0@ == name
}

/// Whether no two providers have the same name.
pub open spec fn unique_providers(providers: Seq<(String, String, String)>) -> bool {
    forall|i: int, j: int|
        0 <= i < j < providers.len() ==> (#[trigger] providers[i]).0@ != (
        #[trigger] providers[j]).0@
}

/// The layouts of the first `n` providers are keyed by exactly their names,
/// and where no name occurs twice each name has its own provider's layout.
pub proof fn lemma_provider_layouts(
    providers: Seq<(String, String, String)>,
    grid: bool,
    n: int,
    key: Seq<char>,
)
    requires
        0 <= n <= providers.len(),
    ensures
        provider_layouts(providers, grid, n).contains_key(key) <==> exists|i: int|
            0 <= i < n && (#[trigger] providers[i]).0@ == key,
        unique_providers(providers) ==> forall|i: int|
            0 <= i < n && (#[trigger] providers[i]).0@ == key ==> provider_layouts(
                providers,
                grid,
                n,
            )[key] == (if grid {
                providers[i].2
            } else {
                providers[i].1
            }),
    decreases n,
{
    if n > 0 {
        lemma_provider_layouts(providers, grid, n - 1, key);
        if provider_layouts(providers, grid, n).contains_key(key) {
            if providers[n - 1].0@ == key {
            } else {
                let i = choose|i: int| 0 <= i < n - 1 && (#[trigger] providers[i]).0@ == key;
                assert(0 <= i < n && providers[i].0@ == key);
            }
        }
        if unique_providers(providers) {
            assert forall|i: int| 0 <= i < n && (#[trigger] providers[i]).0@ == key implies
                provider_layouts(providers, grid, n)[key] == (if grid {
                providers[i].2
            } else {
                providers[i].1
            }) by {
                if i < n - 1 {
                    assert(providers[i].0@ != providers[n - 1].0@);
                }
            }
        }
    }
}

/// The name of the list entry layout of a provider.
pub open spec fn item_file_name(provider: Seq<char>) -> Seq<char> {
    "item_"@ + provider + ".xml"@
}

/// The files that every theme may have.
pub open spec fn base_files() -> Seq<Seq<char>> {
    seq!["layout.xml"@, "keybind.xml"@, "style.scss"@, "style.css"@, "preview.xml"@]
}

/// The files looked for in a theme directory: the base files, and with
/// provider layouts the list entry layout of each provider.
pub open spec fn wanted_files(with_providers: bool, providers: Seq<String>) -> Seq<Seq<char>> {
    if with_providers {
        base_files() + Seq::new(providers.len(), |i: int| item_file_name(providers[i]@))
    } else {
        base_files()
    }
}

/// The style sheet of a theme, given what compiling its SCSS gave: the
/// compiled text where the theme has SCSS and compiling succeeded, else the
/// CSS file, else the built-in one.
pub open spec fn css_of(t: ThemeModel, compiled: Option<Seq<char>>) -> (Option<Seq<char>>, Option<
    Seq<char>,
>) {
    if t.scss is Some && compiled is Some {
        (compiled, None)
    } else {
        (None, t.css)
    }
}

/// The theme directories read under one configuration directory: the
/// configured theme alone, or in service mode every directory found there.
pub open spec fn scanned_themes(is_service: bool, theme: Seq<char>, found: Seq<String>) -> Seq<
    Seq<char>,
> {
    if is_service {
        Seq::new(found.len(), |i: int| found[i]@)
    } else {
        seq![theme]
    }
}

/// The set-up of the window.
pub open spec fn shell_plan(supported: bool, cfg: ShellConfig) -> ShellPlan {
    if !supported {
        ShellPlan::Titlebar
    } else {
        ShellPlan::Overlay {
            exclusive_zone: -1i32,
            keyboard: if cfg.force_keyboard_focus {
                KeyboardMode::Exclusive
            } else {
                KeyboardMode::OnDemand
            },
            anchor_left: cfg.anchor_left,
            anchor_right: cfg.anchor_right,
            anchor_top: cfg.anchor_top,
            anchor_bottom: cfg.anchor_bottom,
        }
    }
}

impl View for ThemeFile {
    type V = FileRole;

    open spec fn view(&self) -> FileRole {
        match self {
            ThemeFile::Scss => FileRole::Scss,
            ThemeFile::Css => FileRole::Css,
            ThemeFile::Layout => FileRole::Layout,
            ThemeFile::Keybind => FileRole::Keybind,
            ThemeFile::Preview => FileRole::Preview,
            ThemeFile::GridItem(k) => FileRole::GridItem(k@),
            ThemeFile::Item(k) => FileRole::Item(k@),
            ThemeFile::Broken => FileRole::Broken,
            ThemeFile::Other => FileRole::Other,
        }
    }
}

impl View for CssSource {
    type V = (Option<Seq<char>>, Option<Seq<char>>);

    /// The compiled text and the path of the file; the built-in style sheet
    /// has neither.
    open spec fn view(&self) -> (Option<Seq<char>>, Option<Seq<char>>) {
        match self {
            CssSource::Compiled(c) => (Some(c@), None),
            CssSource::File(p) => (None, Some(p@)),
            CssSource::BuiltIn => (None, None),
        }
    }
}

impl View for Theme {
    type V = ThemeModel;

    open spec fn view(&self) -> ThemeModel {
        ThemeModel {
            layout: self.layout@,
            keybind: self.keybind@,
            preview: self.preview@,
            scss: match self.scss {
                Some(p) => Some(p@),
                None => None,
            },
            css: match self.css {
                Some(p) => Some(p@),
                None => None,
            },
            items: table_map(self.items@),
            grid_items: table_map(self.grid_items@),
        }
    }
}

/// Tells whether `s` starts with `p`.
pub fn starts_with_text(s: &str, p: &str) -> (yes: bool)
    ensures
        yes == has_prefix(s@, p@),
{
    let n: usize = s.unicode_len();
    let m: usize = p.unicode_len();
    if m > n {
        false
    } else {
        same_text(s.substring_char(0, m), p)
    }
}

/// Tells whether `s` ends with `p`.
pub fn ends_with_text(s: &str, p: &str) -> (yes: bool)
    ensures
        yes == has_suffix(s@, p@),
{
    let n: usize = s.unicode_len();
    let m: usize = p.unicode_len();
    if m > n {
        false
    } else {
        same_text(s.substring_char(n - m, n), p)
    }
}

/// What stands in `name` between `prefix` and `suffix`, where both fit
/// without overlap.
fn provider_between<'a>(name: &'a str, prefix: &str, suffix: &str) -> (key: Option<&'a str>)
    ensures
        match key {
            Some(k) => name@.len() >= prefix@.len() + suffix@.len() && k@ == name@.subrange(
                prefix@.len() as int,
                name@.len() - suffix@.len(),
            ),
            None => name@.len() < prefix@.len() + suffix@.len(),
        },
{
    let n: usize = name.unicode_len();
    let a: usize = prefix.unicode_len();
    let b: usize = suffix.unicode_len();
    if a <= n && b <= n - a {
        Some(name.substring_char(a, n - b))
    } else {
        None
    }
}

/// Finds the role of a file of a theme directory by its name.
pub fn classify_theme_file(name: &str) -> (role: ThemeFile)
    ensures
        role@ == role_of(name@),
{
    if same_text(name, "style.scss") {
        ThemeFile::Scss
    } else if same_text(name, "style.css") {
        ThemeFile::Css
    } else if same_text(name, "layout.xml") {
        ThemeFile::Layout
    } else if same_text(name, "keybind.xml") {
        ThemeFile::Keybind
    } else if same_text(name, "preview.xml") {
        ThemeFile::Preview
    } else if starts_with_text(name, "item_") && ends_with_text(name, "_grid.xml") {
        match provider_between(name, "item_", "_grid.xml") {
            Some(k) => ThemeFile::GridItem(String::from_str(k)),
            None => ThemeFile::Broken,
        }
    } else if starts_with_text(name, "item_") && ends_with_text(name, ".xml") {
        match provider_between(name, "item_", ".xml") {
            Some(k) => ThemeFile::Item(String::from_str(k)),
            None => ThemeFile::Broken,
        }
    } else {
        ThemeFile::Other
    }
}

impl Theme {
    /// Whether no provider has two layouts of a kind.
    pub open spec fn wf(&self) -> bool {
        unique_keys(self.items@) && unique_keys(self.grid_items@)
    }

    /// Tells whether no provider has two layouts of a kind.
    pub fn is_well_formed(&self) -> (ok: bool)
        ensures
            ok == self.wf(),
    {
        keys_are_unique(&self.items) && keys_are_unique(&self.grid_items)
    }

    /// The built-in theme: the three layouts given, no style sheet, and for
    /// every provider its two entry layouts. Each provider is given as its
    /// name, its list entry layout and its grid entry layout.
    pub fn default(
        layout: String,
        keybind: String,
        preview: String,
        providers: &Vec<(String, String, String)>,
    ) -> (theme: Theme)
        ensures
            theme.wf(),
            theme@ == (ThemeModel {
                layout: layout@,
                keybind: keybind@,
                preview: preview@,
                scss: None,
                css: None,
                items: provider_layouts(providers@, false, providers.len() as int),
                grid_items: provider_layouts(providers@, true, providers.len() as int),
            }),
            forall|k: Seq<char>|
                theme@.items.contains_key(k) <==> names_provider(providers@, k),
            forall|k: Seq<char>|
                theme@.grid_items.contains_key(k) <==> names_provider(providers@, k),
            unique_providers(providers@) ==> forall|i: int|
                0 <= i < providers.len() ==> theme@.items[(#[trigger] providers@[i]).0@]
                    == providers@[i].1 && theme@.grid_items[providers@[i].0@] == providers@[i].2,
    {
        let mut theme = Theme {
            layout,
            keybind,
            preview,
            scss: None,
            css: None,
            items: Vec::new(),
            grid_items: Vec::new(),
        };
        let mut i: usize = 0;
        while i < providers.len()
            invariant
                i <= providers.len(),
                theme.wf(),
                theme@ == (ThemeModel {
                    layout: layout@,
                    keybind: keybind@,
                    preview: preview@,
                    scss: None,
                    css: None,
                    items: provider_layouts(providers@, false, i as int),
                    grid_items: provider_layouts(providers@, true, i as int),
                }),
            decreases providers.len() - i,
        {
            let provider = &providers[i];
            theme.add_provider(provider.0.as_str(), provider.1.clone(), provider.2.clone());
            i += 1;
        }
        proof {
            let n = providers.len() as int;
            assert forall|k: Seq<char>|
                theme@.items.contains_key(k) <==> names_provider(providers@, k) by {
                lemma_provider_layouts(providers@, false, n, k);
            }
            assert forall|k: Seq<char>|
                theme@.grid_items.contains_key(k) <==> names_provider(providers@, k) by {
                lemma_provider_layouts(providers@, true, n, k);
            }
            if unique_providers(providers@) {
                assert forall|i: int| 0 <= i < providers.len() implies theme@.items[(
                #[trigger] providers@[i]).0@] == providers@[i].1
                    && theme@.grid_items[providers@[i].0@] == providers@[i].2 by {
                    lemma_provider_layouts(providers@, false, n, providers@[i].0@);
                    lemma_provider_layouts(providers@, true, n, providers@[i].0@);
                }
            }
        }
        theme
    }

    /// Gives a provider its two entry layouts.
    pub fn add_provider(&mut self, provider: &str, item_layout: String, grid_layout: String)
        requires
            old(self).wf(),
        ensures
            final(self).wf(),
            final(self)@ == (ThemeModel {
                items: old(self)@.items.insert(provider@, item_layout),
                grid_items: old(self)@.grid_items.insert(provider@, grid_layout),
                ..old(self)@
            }),
    {
        put(&mut self.items, String::from_str(provider), item_layout);
        put(&mut self.grid_items, String::from_str(provider), grid_layout);
    }

    /// Takes one file of the theme directory in. `None` says that the theme
    /// cannot be loaded.
    fn take_file(self, entry: &ThemeEntry) -> (next: Option<Theme>)
        requires
            self.wf(),
        ensures
            match next {
                Some(t) => t.wf() && apply_file(self@, *entry) == Some(t@),
                None => apply_file(self@, *entry) is None,
            },
    {
        let mut theme = self;
        let content = &entry.content;
        match classify_theme_file(entry.name.as_str()) {
            ThemeFile::Scss => {
                theme.scss = Some(entry.path.clone());
                Some(theme)
            },
            ThemeFile::Css => {
                theme.css = Some(entry.path.clone());
                Some(theme)
            },
            ThemeFile::Layout => match content {
                Some(c) => {
                    theme.layout = c.clone();
                    Some(theme)
                },
                None => None,
            },
            ThemeFile::Keybind => match content {
                Some(c) => {
                    theme.keybind = c.clone();
                    Some(theme)
                },
                None => None,
            },
            ThemeFile::Preview => match content {
                Some(c) => {
                    theme.preview = c.clone();
                    Some(theme)
                },
                None => None,
            },
            ThemeFile::GridItem(key) => match content {
                Some(c) => {
                    put(&mut theme.grid_items, key, c.clone());
                    Some(theme)
                },
                None => None,
            },
            ThemeFile::Item(key) => match content {
                Some(c) => {
                    put(&mut theme.items, key, c.clone());
                    Some(theme)
                },
                None => None,
            },
            ThemeFile::Broken => None,
            ThemeFile::Other => Some(theme),
        }
    }
}

/// Puts a theme together from its directory: starting from `base`, every
/// file is taken in, in the order given. A directory that does not exist
/// gives no theme.
pub fn setup_theme_from_path(exists: bool, files: &Vec<ThemeEntry>, base: Theme) -> (loaded: Option<
    Theme,
>)
    requires
        base.wf(),
    ensures
        !exists ==> loaded is None,
        exists ==> match loaded {
            Some(t) => t.wf() && theme_after(base@, files@, files.len() as int) == Some(t@),
            None => theme_after(base@, files@, files.len() as int) is None,
        },
{
    if !exists {
        return None;
    }
    let ghost start = base@;
    let mut theme = base;
    let mut i: usize = 0;
    while i < files.len()
        invariant
            i <= files.len(),
            theme.wf(),
            start == base@,
            theme_after(start, files@, i as int) == Some(theme@),
        decreases files.len() - i,
    {
        match theme.take_file(&files[i]) {
            Some(t) => {
                theme = t;
            },
            None => {
                proof {
                    assert(theme_after(start, files@, i + 1) is None);
                    lemma_theme_stays_unloaded(start, files@, i + 1, files.len() as int);
                }
                return None;
            },
        }
        i += 1;
    }
    Some(theme)
}

/// Once a file has stopped a theme from loading, later files do not bring it
/// back.
pub proof fn lemma_theme_stays_unloaded(t: ThemeModel, files: Seq<ThemeEntry>, n: int, m: int)
    requires
        n <= m,
        theme_after(t, files, n) is None,
    ensures
        theme_after(t, files, m) is None,
    decreases m - n,
{
    if n < m {
        lemma_theme_stays_unloaded(t, files, n, m - 1);
    }
}

/// Lists the files looked for in a theme directory.
pub fn theme_files(with_providers: bool, providers: &Vec<String>) -> (files: Vec<String>)
    ensures
        files@.len() == wanted_files(with_providers, providers@).len(),
        forall|i: int|
            0 <= i < files@.len() ==> (#[trigger] files@[i])@ == wanted_files(
                with_providers,
                providers@,
            )[i],
{
    let mut files: Vec<String> = Vec::new();
    files.push(String::from_str("layout.xml"));
    files.push(String::from_str("keybind.xml"));
    files.push(String::from_str("style.scss"));
    files.push(String::from_str("style.css"));
    files.push(String::from_str("preview.xml"));
    if with_providers {
        let mut i: usize = 0;
        while i < providers.len()
            invariant
                i <= providers.len(),
                files@.len() == 5 + i,
                forall|j: int|
                    0 <= j < files@.len() ==> (#[trigger] files@[j])@ == wanted_files(
                        true,
                        providers@,
                    )[j],
            decreases providers.len() - i,
        {
            let mut name = String::from_str("item_");
            name.append(providers[i].as_str());
            name.append(".xml");
            files.push(name);
            i += 1;
        }
    }
    files
}

/// Makes sure that the themes that were loaded hold one named `default`:
/// where they hold none, the built-in theme is added under that name. The
/// result says whether it was.
pub fn setup_themes(themes: &mut Vec<(String, Theme)>, builtin: Theme) -> (added: bool)
    requires
        unique_keys(old(themes)@),
    ensures
        unique_keys(final(themes)@),
        added == !table_map(old(themes)@).contains_key("default"@),
        added ==> table_map(final(themes)@) == table_map(old(themes)@).insert(
            "default"@,
            builtin,
        ),
        !added ==> final(themes)@ == old(themes)@,
{
    match position_of(themes, "default") {
        Some(_) => false,
        None => {
            put(themes, String::from_str("default"), builtin);
            true
        },
    }
}

/// Picks the style sheet of a theme. `compiled` is what compiling the
/// theme's SCSS gave, `None` where there was nothing to compile or compiling
/// failed.
pub fn setup_css(theme: &Theme, compiled: Option<String>) -> (source: CssSource)
    ensures
        source@ == css_of(theme@, match compiled {
            Some(c) => Some(c@),
            None => None,
        }),
{
    match (&theme.scss, compiled) {
        (Some(_), Some(c)) => CssSource::Compiled(c),
        _ => match &theme.css {
            Some(p) => CssSource::File(p.clone()),
            None => CssSource::BuiltIn,
        },
    }
}

/// Names the theme directories to read under one configuration directory:
/// the configured theme alone, or in service mode every directory found
/// there, in the order found.
pub fn themes_to_scan(is_service: bool, theme: &str, found: Vec<String>) -> (names: Vec<String>)
    ensures
        !is_service ==> names@.len() == 1 && names@[0]@ == theme@,
        is_service ==> names@ == found@,
        names@.len() == scanned_themes(is_service, theme@, found@).len(),
        forall|i: int|
            0 <= i < names@.len() ==> (#[trigger] names@[i])@ == scanned_themes(
                is_service,
                theme@,
                found@,
            )[i],
{
    if is_service {
        found
    } else {
        let mut names: Vec<String> = Vec::new();
        names.push(String::from_str(theme));
        names
    }
}

/// Decides how the window is set up: on the overlay layer where the
/// compositor supports layer shell, else as an ordinary window.
pub fn setup_layer_shell(supported: bool, cfg: &ShellConfig) -> (plan: ShellPlan)
    ensures
        plan == shell_plan(supported, *cfg),
{
    if !supported {
        ShellPlan::Titlebar
    } else {
        ShellPlan::Overlay {
            exclusive_zone: -1,
            keyboard: if cfg.force_keyboard_focus {
                KeyboardMode::Exclusive
            } else {
                KeyboardMode::OnDemand
            },
            anchor_left: cfg.anchor_left,
            anchor_right: cfg.anchor_right,
            anchor_top: cfg.anchor_top,
            anchor_bottom: cfg.anchor_bottom,
        }
    }
}

} // verus!
