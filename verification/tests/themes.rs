use walker_preview::table::{find, keys_are_unique, position_of, put};
use walker_preview::theme::{
    classify_theme_file, ends_with_text, setup_css, setup_layer_shell, setup_theme_from_path,
    setup_themes, starts_with_text, theme_files, themes_to_scan, CssSource, KeyboardMode,
    ShellConfig, ShellPlan, Theme, ThemeEntry, ThemeFile,
};

fn base() -> Theme {
    Theme::default("L".to_string(), "K".to_string(), "P".to_string(), &Vec::new())
}

fn found(dir: &str, name: &str, content: Option<&str>) -> ThemeEntry {
    ThemeEntry {
        name: name.to_string(),
        path: format!("{dir}/{name}"),
        content: content.map(|c| c.to_string()),
    }
}

fn names(list: &[&str]) -> Vec<String> {
    list.iter().map(|s| s.to_string()).collect()
}

#[test]
fn table_put_replaces_and_find_reads() {
    let mut t: Vec<(String, u32)> = Vec::new();
    put(&mut t, "a".to_string(), 1);
    put(&mut t, "b".to_string(), 2);
    put(&mut t, "a".to_string(), 3);
    assert_eq!(t, vec![("a".to_string(), 3), ("b".to_string(), 2)]);
    assert_eq!(find(&t, "a"), Some(&3));
    assert_eq!(find(&t, "c"), None);
    assert_eq!(position_of(&t, "b"), Some(1));
    assert!(keys_are_unique(&t));
    t.push(("a".to_string(), 9));
    assert!(!keys_are_unique(&t));
}

#[test]
fn theme_files_are_told_apart_by_name() {
    assert_eq!(classify_theme_file("style.scss"), ThemeFile::Scss);
    assert_eq!(classify_theme_file("style.css"), ThemeFile::Css);
    assert_eq!(classify_theme_file("layout.xml"), ThemeFile::Layout);
    assert_eq!(classify_theme_file("keybind.xml"), ThemeFile::Keybind);
    assert_eq!(classify_theme_file("preview.xml"), ThemeFile::Preview);
    assert_eq!(classify_theme_file("item_files.xml"), ThemeFile::Item("files".to_string()));
    assert_eq!(
        classify_theme_file("item_files_grid.xml"),
        ThemeFile::GridItem("files".to_string())
    );
    assert_eq!(classify_theme_file("item_.xml"), ThemeFile::Item(String::new()));
    assert_eq!(classify_theme_file("item__grid.xml"), ThemeFile::GridItem(String::new()));
    assert_eq!(classify_theme_file("item_grid.xml"), ThemeFile::Broken);
    assert_eq!(classify_theme_file("readme.md"), ThemeFile::Other);
    assert_eq!(classify_theme_file("items.xml"), ThemeFile::Other);
}

#[test]
fn prefix_and_suffix_tests() {
    assert!(starts_with_text("item_a", "item_"));
    assert!(!starts_with_text("ite", "item_"));
    assert!(ends_with_text("a.xml", ".xml"));
    assert!(!ends_with_text("a.xm", ".xml"));
    assert!(starts_with_text("abc", ""));
}

#[test]
fn wanted_files_list_the_providers() {
    let providers = names(&["files", "calc"]);
    assert_eq!(
        theme_files(false, &providers),
        names(&["layout.xml", "keybind.xml", "style.scss", "style.css", "preview.xml"])
    );
    assert_eq!(
        theme_files(true, &providers),
        names(&[
            "layout.xml",
            "keybind.xml",
            "style.scss",
            "style.css",
            "preview.xml",
            "item_files.xml",
            "item_calc.xml"
        ])
    );
}

#[test]
fn theme_is_put_together_from_its_files() {
    let dir = "/themes/dark";
    let files = vec![
        found(dir, "layout.xml", Some("<l/>")),
        found(dir, "style.scss", None),
        found(dir, "style.css", None),
        found(dir, "item_files.xml", Some("<i/>")),
        found(dir, "item_files_grid.xml", Some("<g/>")),
        found(dir, "notes.txt", None),
    ];
    let theme = setup_theme_from_path(true, &files, base()).unwrap();
    assert_eq!(theme.layout, "<l/>");
    assert_eq!(theme.keybind, "K");
    assert_eq!(theme.preview, "P");
    assert_eq!(theme.scss, Some("/themes/dark/style.scss".to_string()));
    assert_eq!(theme.css, Some("/themes/dark/style.css".to_string()));
    assert_eq!(theme.items, vec![("files".to_string(), "<i/>".to_string())]);
    assert_eq!(theme.grid_items, vec![("files".to_string(), "<g/>".to_string())]);
}

#[test]
fn theme_with_an_unreadable_layout_is_not_loaded() {
    let broken = vec![
        found("/t", "layout.xml", Some("<l/>")),
        found("/t", "keybind.xml", None),
        found("/t", "preview.xml", Some("<p/>")),
    ];
    assert_eq!(setup_theme_from_path(true, &broken, base()), None);
    let ok = vec![found("/t", "layout.xml", Some("<l/>")), found("/t", "keybind.xml", Some("<k/>"))];
    assert_eq!(setup_theme_from_path(false, &ok, base()), None);
    assert!(setup_theme_from_path(true, &ok, base()).is_some());
    let odd = vec![found("/t", "item_grid.xml", Some("<g/>"))];
    assert_eq!(setup_theme_from_path(true, &odd, base()), None);
    assert_eq!(setup_theme_from_path(true, &Vec::new(), base()), Some(base()));
}

#[test]
fn built_in_theme_holds_the_layouts_of_every_provider() {
    let providers = vec![
        ("files".to_string(), "fl".to_string(), "fg".to_string()),
        ("calc".to_string(), "cl".to_string(), "cg".to_string()),
    ];
    let theme = Theme::default("L".to_string(), "K".to_string(), "P".to_string(), &providers);
    assert_eq!(theme.layout, "L");
    assert_eq!(theme.keybind, "K");
    assert_eq!(theme.preview, "P");
    assert_eq!(theme.scss, None);
    assert_eq!(theme.css, None);
    assert_eq!(
        theme.items,
        vec![("files".to_string(), "fl".to_string()), ("calc".to_string(), "cl".to_string())]
    );
    assert_eq!(
        theme.grid_items,
        vec![("files".to_string(), "fg".to_string()), ("calc".to_string(), "cg".to_string())]
    );
    assert!(theme.is_well_formed());
    assert_eq!(base().items, Vec::new());
    assert_eq!(base().grid_items, Vec::new());
}

#[test]
fn a_later_provider_of_the_same_name_wins() {
    let providers = vec![
        ("files".to_string(), "a".to_string(), "b".to_string()),
        ("files".to_string(), "c".to_string(), "d".to_string()),
    ];
    let theme = Theme::default(String::new(), String::new(), String::new(), &providers);
    assert_eq!(theme.items, vec![("files".to_string(), "c".to_string())]);
    assert_eq!(theme.grid_items, vec![("files".to_string(), "d".to_string())]);
}

#[test]
fn provider_layouts_are_kept_by_provider() {
    let mut theme = base();
    theme.add_provider("files", "a".to_string(), "b".to_string());
    theme.add_provider("files", "c".to_string(), "d".to_string());
    assert_eq!(theme.items, vec![("files".to_string(), "c".to_string())]);
    assert_eq!(theme.grid_items, vec![("files".to_string(), "d".to_string())]);
    assert!(theme.is_well_formed());
    theme.items.push(("files".to_string(), "e".to_string()));
    assert!(!theme.is_well_formed());
}

#[test]
fn default_theme_is_added_where_none_was_loaded() {
    let mut themes: Vec<(String, Theme)> = Vec::new();
    assert!(setup_themes(&mut themes, base()));
    assert_eq!(themes, vec![("default".to_string(), base())]);
    let mut own = base();
    own.layout = "mine".to_string();
    let mut loaded = vec![("default".to_string(), own.clone())];
    assert!(!setup_themes(&mut loaded, base()));
    assert_eq!(loaded, vec![("default".to_string(), own)]);
}

#[test]
fn style_sheet_prefers_compiled_scss() {
    let mut theme = base();
    theme.scss = Some("/t/style.scss".to_string());
    assert_eq!(setup_css(&theme, None), CssSource::BuiltIn);
    theme.css = Some("/t/style.css".to_string());
    assert_eq!(setup_css(&theme, None), CssSource::File("/t/style.css".to_string()));
    assert_eq!(
        setup_css(&theme, Some("a{}".to_string())),
        CssSource::Compiled("a{}".to_string())
    );
}

#[test]
fn compiled_text_counts_only_for_a_theme_with_scss() {
    let mut theme = base();
    assert_eq!(setup_css(&theme, Some("a{}".to_string())), CssSource::BuiltIn);
    theme.css = Some("/t/style.css".to_string());
    assert_eq!(
        setup_css(&theme, Some("a{}".to_string())),
        CssSource::File("/t/style.css".to_string())
    );
}

#[test]
fn one_theme_is_scanned_unless_in_service_mode() {
    let found = names(&["dark", "light"]);
    assert_eq!(themes_to_scan(false, "mine", found.clone()), names(&["mine"]));
    assert_eq!(themes_to_scan(true, "mine", found.clone()), found);
    assert_eq!(themes_to_scan(true, "mine", Vec::new()), Vec::<String>::new());
    assert_eq!(themes_to_scan(false, "mine", Vec::new()), names(&["mine"]));
}

#[test]
fn window_goes_to_the_overlay_layer_where_supported() {
    let cfg = ShellConfig {
        force_keyboard_focus: true,
        anchor_left: true,
        anchor_right: false,
        anchor_top: true,
        anchor_bottom: false,
    };
    assert_eq!(setup_layer_shell(false, &cfg), ShellPlan::Titlebar);
    assert_eq!(
        setup_layer_shell(true, &cfg),
        ShellPlan::Overlay {
            exclusive_zone: -1,
            keyboard: KeyboardMode::Exclusive,
            anchor_left: true,
            anchor_right: false,
            anchor_top: true,
            anchor_bottom: false,
        }
    );
    let relaxed = ShellConfig { force_keyboard_focus: false, ..cfg };
    assert!(matches!(
        setup_layer_shell(true, &relaxed),
        ShellPlan::Overlay { keyboard: KeyboardMode::OnDemand, .. }
    ));
}
