use fishstrap_installer::inject::ensure_settings_compatibility;
use fishstrap_installer::inject::inject_app_startup;
use fishstrap_installer::inject::inject_bootstrapper;
use fishstrap_installer::inject::inject_channel_interface;
use fishstrap_installer::inject::inject_channel_view_model;
use fishstrap_installer::inject::inject_settings_navigation;
use fishstrap_installer::inject::inject_source_changes;
use fishstrap_installer::inject::normalize_newlines;
use fishstrap_installer::inject::replace_updater_body;
use fishstrap_installer::inject::SourceFile;
use fishstrap_installer::inject::SourceFiles;
use fishstrap_installer::markers;
use fishstrap_installer::patch::insert_before_once;
use fishstrap_installer::patch::replace_once;
use fishstrap_installer::patch::PatchErrorKind;

#[test]
fn replace_once_replaces_the_single_marker() {
    let mut s = String::from("alpha MARK omega");
    replace_once(&mut s, "MARK", "NEW", "f.cs").unwrap();
    assert_eq!(s, "alpha NEW omega");
}

#[test]
fn replace_once_refuses_a_missing_marker() {
    let mut s = String::from("alpha omega");
    let e = replace_once(&mut s, "MARK", "NEW", "src/f.cs").unwrap_err();
    assert_eq!(e.kind, PatchErrorKind::MarkerCount(0));
    assert_eq!(e.path, "src/f.cs");
    assert_eq!(e.message(), "expected one source marker in src/f.cs, found 0");
    assert_eq!(s, "alpha omega");
}

#[test]
fn replace_once_refuses_a_repeated_marker() {
    let mut s = String::from("MARK and MARK and MARK");
    let e = replace_once(&mut s, "MARK", "NEW", "g.cs").unwrap_err();
    assert_eq!(e.kind, PatchErrorKind::MarkerCount(3));
    assert_eq!(e.message(), "expected one source marker in g.cs, found 3");
    assert_eq!(s, "MARK and MARK and MARK");
}

#[test]
fn replace_once_counts_occurrences_without_overlap() {
    let mut s = String::from("aaa");
    replace_once(&mut s, "aa", "b", "h.cs").unwrap();
    assert_eq!(s, "ba");
    let mut t = String::from("aaaa");
    let e = replace_once(&mut t, "aa", "b", "h.cs").unwrap_err();
    assert_eq!(e.kind, PatchErrorKind::MarkerCount(2));
}

#[test]
fn replace_once_with_an_empty_marker() {
    let mut empty = String::new();
    replace_once(&mut empty, "", "X", "e.cs").unwrap();
    assert_eq!(empty, "X");
    let mut s = String::from("ab");
    let e = replace_once(&mut s, "", "X", "e.cs").unwrap_err();
    assert_eq!(e.kind, PatchErrorKind::MarkerCount(3));
    assert_eq!(s, "ab");
}

#[test]
fn replace_once_handles_non_ascii_text() {
    let mut s = String::from("héllo wörld ✓");
    replace_once(&mut s, "wörld", "welt", "u.cs").unwrap();
    assert_eq!(s, "héllo welt ✓");
}

#[test]
fn insert_before_once_keeps_the_marker_after_the_addition() {
    let mut s = String::from("one\ntwo\nthree\n");
    insert_before_once(&mut s, "two\n", "inserted\n", "i.cs").unwrap();
    assert_eq!(s, "one\ninserted\ntwo\nthree\n");
    let e = insert_before_once(&mut s, "four\n", "x", "i.cs").unwrap_err();
    assert_eq!(e.kind, PatchErrorKind::MarkerCount(0));
    assert_eq!(s, "one\ninserted\ntwo\nthree\n");
}

#[test]
fn normalize_newlines_turns_crlf_into_lf() {
    assert_eq!(normalize_newlines("a\r\nb\r\n\rc\n"), "a\nb\n\rc\n");
    assert_eq!(normalize_newlines("\r\r\n\n"), "\r\n\n");
    assert_eq!(normalize_newlines(""), "");
}

fn app_source() -> String {
    format!("class App\n{{\n    void Start()\n    {{\n{}                Run();\n    }}\n}}\n", markers::APP_STARTUP_MARKER)
}

#[test]
fn inject_app_startup_adds_the_exit_hook() {
    let mut s = app_source();
    inject_app_startup(&mut s, "App.xaml.cs").unwrap();
    assert_eq!(s, app_source().replacen(markers::APP_STARTUP_MARKER, markers::APP_STARTUP_ADDITION, 1));
    assert!(s.contains("Settings.Prop.EnableAnalytics = false;"));
    let mut twice = format!("{}{}", s, markers::APP_STARTUP_MARKER);
    let e = inject_app_startup(&mut twice, "App.xaml.cs").unwrap_err();
    assert_eq!(e.kind, PatchErrorKind::MarkerCount(2));
}

#[test]
fn inject_settings_navigation_adds_the_entry_after_deployment() {
    let mut s = format!("<nav>\n{}</nav>\n", markers::NAVIGATION_MARKER);
    inject_settings_navigation(&mut s, "MainWindow.xaml").unwrap();
    assert_eq!(s, format!("<nav>\n{}{}</nav>\n", markers::NAVIGATION_MARKER, markers::NAVIGATION_ITEM));
    assert!(s.contains("PageType=\"{x:Type pages:BanAsyncPage}\""));
}

fn channel_page() -> String {
    format!("<page>\n{}        </ui:CardExpander>\n{}\n</page>\n", markers::CHANNEL_CARD_MARKER, markers::CHANNEL_BOX)
}

#[test]
fn inject_channel_interface_adds_toggle_and_selector() {
    let mut s = channel_page();
    inject_channel_interface(&mut s, "ChannelPage.xaml").unwrap();
    let expected = format!(
        "<page>\n{}{}        </ui:CardExpander>\n{}\n</page>\n",
        markers::EXECUTOR_TOGGLE,
        markers::CHANNEL_CARD_MARKER,
        markers::EXECUTOR_SELECTOR
    );
    assert_eq!(s, expected);
}

#[test]
fn inject_channel_interface_leaves_the_page_when_the_box_is_missing() {
    let original = format!("<page>\n{}</page>\n", markers::CHANNEL_CARD_MARKER);
    let mut s = original.clone();
    let e = inject_channel_interface(&mut s, "ChannelPage.xaml").unwrap_err();
    assert_eq!(e.kind, PatchErrorKind::MarkerCount(0));
    assert_eq!(e.path, "ChannelPage.xaml");
    assert_eq!(s, original);
}

fn view_model() -> String {
    format!(
        "{}\nnamespace X\n{{\n{}{}        {{ get; set; }}\n}}\n",
        markers::USING_MARKER,
        markers::VIEW_MODEL_CONSTRUCTOR,
        markers::UPDATE_PROPERTY_MARKER
    )
}

#[test]
fn inject_channel_view_model_adds_executor_support() {
    let mut s = view_model();
    inject_channel_view_model(&mut s, "ChannelViewModel.cs").unwrap();
    let expected = format!(
        "{}\nnamespace X\n{{\n{}{}{}        {{ get; set; }}\n}}\n",
        markers::USING_REPLACEMENT,
        markers::EXECUTOR_CONSTRUCTOR,
        markers::EXECUTOR_PROPERTY,
        markers::UPDATE_PROPERTY_MARKER
    );
    assert_eq!(s, expected);
}

#[test]
fn inject_channel_view_model_reports_the_first_missing_marker() {
    let original = format!("{}\n{}", markers::USING_MARKER, markers::UPDATE_PROPERTY_MARKER);
    let mut s = original.clone();
    let e = inject_channel_view_model(&mut s, "vm.cs").unwrap_err();
    assert_eq!(e.kind, PatchErrorKind::MarkerCount(0));
    assert_eq!(s, original);
}

fn update_method(body: &str) -> String {
    format!(
        "{}\n        {{\n{}{}            }}\n{}\n            {{\n            }}\n        }}\n",
        markers::UPDATE_METHOD_MARKER,
        markers::UPDATE_TRY_MARKER,
        body,
        markers::UPDATE_CATCH_MARKER
    )
}

#[test]
fn replace_updater_body_swaps_the_try_block_body() {
    let mut s = format!("class B\n{{\n{}}}\n", update_method("                old();\n                if (x)\n                {\n                }\n"));
    replace_updater_body(&mut s, "Bootstrapper.cs").unwrap();
    let expected = format!("class B\n{{\n{}}}\n", update_method(markers::UPDATER_BODY));
    assert_eq!(s, expected);
}

#[test]
fn replace_updater_body_reports_each_missing_part() {
    let cases = [
        ("class B {}".to_string(), PatchErrorKind::MissingUpdateMethod),
        (format!("{}\n        {{\n        }}\n", markers::UPDATE_METHOD_MARKER), PatchErrorKind::MissingUpdateBlock),
        (
            format!("{}\n{}                x();\n            }}\n", markers::UPDATE_METHOD_MARKER, markers::UPDATE_TRY_MARKER),
            PatchErrorKind::MissingUpdateErrorBlock,
        ),
        (
            format!("{}\n{}                x();\n{}\n", markers::UPDATE_METHOD_MARKER, markers::UPDATE_TRY_MARKER, markers::UPDATE_CATCH_MARKER),
            PatchErrorKind::MissingUpdateBlockEnd,
        ),
    ];
    for (text, kind) in cases {
        let mut s = text.clone();
        let e = replace_updater_body(&mut s, "B.cs").unwrap_err();
        assert_eq!(e.kind, kind);
        assert_eq!(s, text);
    }
    let mut s = String::new();
    let e = replace_updater_body(&mut s, "Bootstrapper.cs").unwrap_err();
    assert_eq!(e.message(), "couldn't find the update method in Bootstrapper.cs");
}

#[test]
fn replace_updater_body_keeps_from_the_last_close_before_catch() {
    let source = format!(
        "{}\n{}                a();\n            }}\n                b();\n            }}\n{}\n",
        markers::UPDATE_METHOD_MARKER,
        markers::UPDATE_TRY_MARKER,
        markers::UPDATE_CATCH_MARKER
    );
    let mut s = source.clone();
    replace_updater_body(&mut s, "B.cs").unwrap();
    let expected = format!(
        "{}\n{}{}            }}\n{}\n",
        markers::UPDATE_METHOD_MARKER,
        markers::UPDATE_TRY_MARKER,
        markers::UPDATER_BODY,
        markers::UPDATE_CATCH_MARKER
    );
    assert_eq!(s, expected);
}

fn bootstrapper() -> String {
    format!(
        "{}            {}\n            {}\n{}",
        markers::VERSION_MARKER,
        markers::PRODUCTION_UPDATE_CHECK,
        markers::PRODUCTION_UPDATE_CHECK,
        update_method("                old();\n")
    )
}

#[test]
fn inject_bootstrapper_applies_all_three_changes() {
    let mut s = bootstrapper();
    inject_bootstrapper(&mut s, "Bootstrapper.cs").unwrap();
    let expected = format!(
        "{}            {}\n            {}\n{}",
        markers::EXECUTOR_RESOLUTION,
        markers::UPDATE_CHECK,
        markers::UPDATE_CHECK,
        update_method(markers::UPDATER_BODY)
    );
    assert_eq!(s, expected);
}

#[test]
fn inject_bootstrapper_without_update_method_changes_nothing() {
    let original = format!("{}x\n", markers::VERSION_MARKER);
    let mut s = original.clone();
    let e = inject_bootstrapper(&mut s, "Bootstrapper.cs").unwrap_err();
    assert_eq!(e.kind, PatchErrorKind::MissingUpdateMethod);
    assert_eq!(s, original);
}

#[test]
fn settings_compatibility_property_is_added_once() {
    let mut s = String::from("namespace N\n{\n    public partial class Settings : Base\n    {\n        public int A { get; set; }\n    }\n}\n");
    assert_eq!(ensure_settings_compatibility(&mut s, "Settings.cs").unwrap(), true);
    let expected = format!(
        "namespace N\n{{\n    public partial class Settings : Base\n    {{{}\n        public int A {{ get; set; }}\n    }}\n}}\n",
        markers::SETTINGS_PROPERTY
    );
    assert_eq!(s, expected);
    let before = s.clone();
    assert_eq!(ensure_settings_compatibility(&mut s, "Settings.cs").unwrap(), false);
    assert_eq!(s, before);
}

#[test]
fn settings_compatibility_reports_missing_class_and_body() {
    let mut s = String::from("namespace N { }");
    let e = ensure_settings_compatibility(&mut s, "Settings.cs").unwrap_err();
    assert_eq!(e.kind, PatchErrorKind::MissingSettingsClass);
    assert_eq!(e.message(), "couldn't find the Settings class in Settings.cs");
    let mut t = String::from("public class Settings;");
    let e = ensure_settings_compatibility(&mut t, "Settings.cs").unwrap_err();
    assert_eq!(e.kind, PatchErrorKind::MissingSettingsBody);
    assert_eq!(e.message(), "couldn't find the Settings class body in Settings.cs");
    assert_eq!(t, "public class Settings;");
}

fn file(path: &str, contents: String) -> SourceFile {
    SourceFile { path: path.to_string(), contents }
}

fn all_sources() -> SourceFiles {
    SourceFiles {
        settings: file("Settings.cs", "    public class Settings\n    {\n    }\n".to_string()),
        app: file("App.xaml.cs", app_source()),
        main_window: file("MainWindow.xaml", format!("<nav>\n{}</nav>\n", markers::NAVIGATION_MARKER)),
        channel_page: file("ChannelPage.xaml", channel_page()),
        channel_view_model: file("ChannelViewModel.cs", view_model()),
        bootstrapper: file("Bootstrapper.cs", bootstrapper()),
    }
}

#[test]
fn inject_source_changes_patches_every_file() {
    let mut files = all_sources();
    inject_source_changes(&mut files).unwrap();
    assert_eq!(files.settings.contents, "    public partial class Settings\n    {\n    }\n");
    assert!(files.app.contents.contains("Settings.Prop.EnableAnalytics = false;"));
    assert!(files.main_window.contents.contains("BanAsyncPage"));
    assert!(files.channel_page.contents.contains("Executor channels"));
    assert!(files.channel_view_model.contents.contains("UseExecutorChannels"));
    assert!(files.bootstrapper.contents.contains("FishstrapInstaller.exe"));
    assert_eq!(files.bootstrapper.path, "Bootstrapper.cs");
}

#[test]
fn inject_source_changes_stops_at_the_first_file_that_does_not_match() {
    let mut files = all_sources();
    files.main_window.contents = "<nav></nav>".to_string();
    let e = inject_source_changes(&mut files).unwrap_err();
    assert_eq!(e.path, "MainWindow.xaml");
    assert_eq!(e.kind, PatchErrorKind::MarkerCount(0));
    assert_eq!(files.settings.contents, "    public partial class Settings\n    {\n    }\n");
    assert!(files.app.contents.contains("EnableAnalytics"));
    assert_eq!(files.main_window.contents, "<nav></nav>");
    assert_eq!(files.channel_page.contents, channel_page());
    assert_eq!(files.bootstrapper.contents, bootstrapper());
}

#[test]
fn normalized_text_has_no_crlf_unless_carriage_returns_repeat() {
    let s = normalize_newlines("line one\r\nline two\r\n\r\nend\r");
    assert_eq!(s, "line one\nline two\n\nend\r");
    assert!(!s.contains("\r\n"));
    assert_eq!(normalize_newlines("a\r\r\nb"), "a\r\nb");
}

#[test]
fn escaped_values_read_back_unchanged() {
    for value in ["C:\\O'Neil\\F", "''", "plain", "a'b'c'"] {
        let escaped = fishstrap_installer::escape::escape_powershell_text(value);
        assert_eq!(escaped.replace("''", "'"), value);
        assert_eq!(escaped.matches('\'').count() % 2, 0);
    }
}

#[test]
fn patch_source_applies_the_integration_of_each_file() {
    let mut files = all_sources();
    let mut texts = [
        files.settings.contents.clone(),
        files.app.contents.clone(),
        files.main_window.contents.clone(),
        files.channel_page.contents.clone(),
        files.channel_view_model.contents.clone(),
        files.bootstrapper.contents.clone(),
    ];
    inject_source_changes(&mut files).unwrap();
    for (index, text) in texts.iter_mut().enumerate() {
        fishstrap_installer::inject::patch_source(index, text, "f").unwrap();
    }
    assert_eq!(texts[0], files.settings.contents);
    assert_eq!(texts[1], files.app.contents);
    assert_eq!(texts[2], files.main_window.contents);
    assert_eq!(texts[3], files.channel_page.contents);
    assert_eq!(texts[4], files.channel_view_model.contents);
    assert_eq!(texts[5], files.bootstrapper.contents);
    let mut wrong = String::from("nothing here");
    let e = fishstrap_installer::inject::patch_source(5, &mut wrong, "Bootstrapper.cs").unwrap_err();
    assert_eq!(e.kind, PatchErrorKind::MarkerCount(0));
    assert_eq!(wrong, "nothing here");
}

#[test]
fn insert_before_once_acts_as_replace_once_with_addition_and_marker() {
    for text in ["a M b", "no marker", "M M", ""] {
        for marker in ["M", ""] {
            let mut c1 = text.to_string();
            let mut c2 = text.to_string();
            let r1 = insert_before_once(&mut c1, marker, "+", "p");
            let r2 = replace_once(&mut c2, marker, &format!("+{marker}"), "p");
            assert_eq!(c1, c2);
            assert_eq!(r1.is_ok(), r2.is_ok());
            if let (Err(e1), Err(e2)) = (r1, r2) {
                assert_eq!(e1.message(), e2.message());
                assert_eq!(c1, text);
            }
        }
    }
}

#[test]
fn escaped_text_has_one_more_character_per_quote_and_even_quote_runs() {
    for value in ["", "'", "''x'", "O'Neil's", "none"] {
        let escaped = fishstrap_installer::escape::escape_powershell_text(value);
        assert_eq!(escaped.replace("''", "'"), value);
        assert_eq!(escaped.chars().count(), value.chars().count() + value.matches('\'').count());
        for run in escaped.split(|c| c != '\'') {
            assert_eq!(run.len() % 2, 0);
        }
    }
}
