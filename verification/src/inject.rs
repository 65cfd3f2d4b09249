//! The integrations: each patches one Fishstrap source file at its markers.
use vstd::prelude::*;
use crate::markers::APP_STARTUP_ADDITION;
use crate::markers::APP_STARTUP_MARKER;
use crate::markers::CHANNEL_BOX;
use crate::markers::CHANNEL_CARD_MARKER;
use crate::markers::COMPATIBILITY_PROPERTY_NAME;
use crate::markers::EXECUTOR_CONSTRUCTOR;
use crate::markers::EXECUTOR_PROPERTY;
use crate::markers::EXECUTOR_RESOLUTION;
use crate::markers::EXECUTOR_SELECTOR;
use crate::markers::EXECUTOR_TOGGLE;
use crate::markers::NAVIGATION_ITEM;
use crate::markers::NAVIGATION_MARKER;
use crate::markers::PRODUCTION_UPDATE_CHECK;
use crate::markers::SETTINGS_CLASS;
use crate::markers::SETTINGS_CLASS_MARKER;
use crate::markers::SETTINGS_PARTIAL_CLASS;
use crate::markers::SETTINGS_PROPERTY;
use crate::markers::UPDATER_BODY;
use crate::markers::UPDATE_CATCH_MARKER;
use crate::markers::UPDATE_CHECK;
use crate::markers::UPDATE_CLOSE_MARKER;
use crate::markers::UPDATE_METHOD_MARKER;
use crate::markers::UPDATE_PROPERTY_MARKER;
use crate::markers::UPDATE_TRY_MARKER;
use crate::markers::USING_MARKER;
use crate::markers::USING_REPLACEMENT;
use crate::markers::VERSION_MARKER;
use crate::markers::VIEW_MODEL_CONSTRUCTOR;
use crate::markers::lemma_markers_nonempty;
use crate::patch::and_then;
use crate::patch::insert_before_once;
use crate::patch::patched_as;
use crate::patch::replace_once;
use crate::patch::replace_once_spec;
use crate::patch::PatchError;
use crate::patch::PatchErrorKind;
use crate::text::chars_of;
use crate::text::contains;
use crate::text::find_from;
use crate::text::find_from_exec;
use crate::text::first_match_from;
use crate::text::lemma_find_from;
use crate::text::lemma_rfind_within;
use crate::text::matches_at;
use crate::text::push_all;
use crate::text::push_range;
use crate::text::replace_all;
use crate::text::replace_all_from;
use crate::text::replace_all_exec;
use crate::text::rfind_within;
use crate::text::rfind_within_exec;
use crate::text::string_of;

verus! {

/// `s` with every `\r\n` turned into `\n`.
pub open spec fn normalize_newlines_spec(s: Seq<char>) -> Seq<char> {
    replace_all(s, "\r\n"@, "\n"@)
}

/// Source text as the patches read it: with Windows line endings turned into
/// `\n`.
pub fn normalize_newlines(s: &str) -> (t: String)
    ensures
        t@ == normalize_newlines_spec(s@),
{
    proof {
        reveal_strlit("\r\n");
    }
    let v = chars_of(s);
    let m = chars_of("\r\n");
    let r = chars_of("\n");
    let t = replace_all_exec(v.as_slice(), m.as_slice(), r.as_slice());
    string_of(t.as_slice())
}

/// `contents` with every occurrence of the non-empty `marker` replaced.
fn replace_all_str(contents: &str, marker: &str, replacement: &str) -> (t: String)
    requires
        marker@.len() > 0,
    ensures
        t@ == replace_all(contents@, marker@, replacement@),
{
    let v = chars_of(contents);
    let m = chars_of(marker);
    let r = chars_of(replacement);
    let t = replace_all_exec(v.as_slice(), m.as_slice(), r.as_slice());
    string_of(t.as_slice())
}

/// The settings class made partial.
pub open spec fn settings_partial_spec(s: Seq<char>) -> Result<Seq<char>, PatchErrorKind> {
    replace_once_spec(s, SETTINGS_CLASS@, SETTINGS_PARTIAL_CLASS@)
}

/// The start-up code with the exit hook added after the settings load.
pub open spec fn app_startup_spec(s: Seq<char>) -> Result<Seq<char>, PatchErrorKind> {
    replace_once_spec(s, APP_STARTUP_MARKER@, APP_STARTUP_ADDITION@)
}

/// The settings window with the added navigation entry after the deployment one.
pub open spec fn settings_navigation_spec(s: Seq<char>) -> Result<Seq<char>, PatchErrorKind> {
    replace_once_spec(s, NAVIGATION_MARKER@, NAVIGATION_MARKER@ + NAVIGATION_ITEM@)
}

/// The channel page with the executor toggle and the executor selector.
pub open spec fn channel_interface_spec(s: Seq<char>) -> Result<Seq<char>, PatchErrorKind> {
    and_then(
        replace_once_spec(s, CHANNEL_CARD_MARKER@, EXECUTOR_TOGGLE@ + CHANNEL_CARD_MARKER@),
        |t: Seq<char>| replace_once_spec(t, CHANNEL_BOX@, EXECUTOR_SELECTOR@),
    )
}

/// The channel view model with the imports, constructor and property for executors.
pub open spec fn channel_view_model_spec(s: Seq<char>) -> Result<Seq<char>, PatchErrorKind> {
    and_then(
        replace_once_spec(s, USING_MARKER@, USING_REPLACEMENT@),
        |t: Seq<char>|
            and_then(
                replace_once_spec(t, VIEW_MODEL_CONSTRUCTOR@, EXECUTOR_CONSTRUCTOR@),
                |u: Seq<char>|
                    replace_once_spec(
                        u,
                        UPDATE_PROPERTY_MARKER@,
                        EXECUTOR_PROPERTY@ + UPDATE_PROPERTY_MARKER@,
                    ),
            ),
    )
}

/// The update check with the body of its `try` block replaced: the text up to
/// the end of the first `try` opening after the method header, the new body,
/// then the text from the last block closing that lies between there and the
/// first `catch` clause after it.
pub open spec fn updater_body_spec(s: Seq<char>) -> Result<Seq<char>, PatchErrorKind> {
    match find_from(s, UPDATE_METHOD_MARKER@, 0) {
        None => Err(PatchErrorKind::MissingUpdateMethod),
        Some(method_start) => match find_from(s, UPDATE_TRY_MARKER@, method_start) {
            None => Err(PatchErrorKind::MissingUpdateBlock),
            Some(try_start) => {
                let body_start = try_start + UPDATE_TRY_MARKER@.len();
                match find_from(s, UPDATE_CATCH_MARKER@, body_start) {
                    None => Err(PatchErrorKind::MissingUpdateErrorBlock),
                    Some(catch_start) => match rfind_within(
                        s,
                        UPDATE_CLOSE_MARKER@,
                        body_start,
                        catch_start,
                    ) {
                        None => Err(PatchErrorKind::MissingUpdateBlockEnd),
                        Some(close_start) => Ok(
                            s.take(body_start) + UPDATER_BODY@ + s.skip(close_start),
                        ),
                    },
                }
            },
        },
    }
}

/// The bootstrapper with executor version resolution, updates checked in
/// every build, and updates handed to the installer.
pub open spec fn bootstrapper_spec(s: Seq<char>) -> Result<Seq<char>, PatchErrorKind> {
    and_then(
        replace_once_spec(s, VERSION_MARKER@, EXECUTOR_RESOLUTION@),
        |t: Seq<char>|
            updater_body_spec(replace_all(t, PRODUCTION_UPDATE_CHECK@, UPDATE_CHECK@)),
    )
}

/// Adds the exit hook after the settings load in the start-up code.
pub fn inject_app_startup(contents: &mut String, path: &str) -> (r: Result<(), PatchError>)
    ensures
        patched_as(old(contents)@, final(contents)@, path@, r, app_startup_spec(old(contents)@)),
{
    proof {
        lemma_markers_nonempty();
    }
    replace_once(contents, APP_STARTUP_MARKER, APP_STARTUP_ADDITION, path)
}

/// Adds the navigation entry after the deployment entry of the settings window.
pub fn inject_settings_navigation(contents: &mut String, path: &str) -> (r: Result<
    (),
    PatchError,
>)
    ensures
        patched_as(
            old(contents)@,
            final(contents)@,
            path@,
            r,
            settings_navigation_spec(old(contents)@),
        ),
{
    proof {
        lemma_markers_nonempty();
    }
    let mut addition = String::from_str(NAVIGATION_MARKER);
    addition.append(NAVIGATION_ITEM);
    replace_once(contents, NAVIGATION_MARKER, addition.as_str(), path)
}

/// Adds the executor toggle and the executor selector to the channel page.
pub fn inject_channel_interface(contents: &mut String, path: &str) -> (r: Result<
    (),
    PatchError,
>)
    ensures
        patched_as(
            old(contents)@,
            final(contents)@,
            path@,
            r,
            channel_interface_spec(old(contents)@),
        ),
{
    proof {
        lemma_markers_nonempty();
    }
    let mut t = contents.clone();
    insert_before_once(&mut t, CHANNEL_CARD_MARKER, EXECUTOR_TOGGLE, path)?;
    replace_once(&mut t, CHANNEL_BOX, EXECUTOR_SELECTOR, path)?;
    *contents = t;
    Ok(())
}

/// Adds the executor imports, constructor and property to the channel view model.
pub fn inject_channel_view_model(contents: &mut String, path: &str) -> (r: Result<
    (),
    PatchError,
>)
    ensures
        patched_as(
            old(contents)@,
            final(contents)@,
            path@,
            r,
            channel_view_model_spec(old(contents)@),
        ),
{
    proof {
        lemma_markers_nonempty();
    }
    let mut t = contents.clone();
    replace_once(&mut t, USING_MARKER, USING_REPLACEMENT, path)?;
    replace_once(&mut t, VIEW_MODEL_CONSTRUCTOR, EXECUTOR_CONSTRUCTOR, path)?;
    insert_before_once(&mut t, UPDATE_PROPERTY_MARKER, EXECUTOR_PROPERTY, path)?;
    *contents = t;
    Ok(())
}

/// Replaces the body of the `try` block of the bootstrapper's update check
/// with one that hands the update to the installer; fails, leaving
/// `contents` as it was, when the method, its `try` block, its `catch` clause
/// or the end of the block cannot be found.
pub fn replace_updater_body(contents: &mut String, path: &str) -> (r: Result<(), PatchError>)
    ensures
        patched_as(old(contents)@, final(contents)@, path@, r, updater_body_spec(old(contents)@)),
{
    let s = chars_of(contents.as_str());
    let method = chars_of(UPDATE_METHOD_MARKER);
    let try_marker = chars_of(UPDATE_TRY_MARKER);
    let catch_marker = chars_of(UPDATE_CATCH_MARKER);
    let close_marker = chars_of(UPDATE_CLOSE_MARKER);
    let method_start = match find_from_exec(s.as_slice(), method.as_slice(), 0) {
        Some(i) => i,
        None => {
            return Err(
                PatchError {
                    path: String::from_str(path),
                    kind: PatchErrorKind::MissingUpdateMethod,
                },
            );
        },
    };
    let try_start = match find_from_exec(s.as_slice(), try_marker.as_slice(), method_start) {
        Some(i) => i,
        None => {
            return Err(
                PatchError { path: String::from_str(path), kind: PatchErrorKind::MissingUpdateBlock },
            );
        },
    };
    proof {
        lemma_find_from(s@, try_marker@, method_start as int);
        assert(matches_at(s@, try_marker@, try_start as int));
        assert(try_start + try_marker.len() <= s.len());
    }
    let body_start = try_start + try_marker.len();
    let catch_start = match find_from_exec(s.as_slice(), catch_marker.as_slice(), body_start) {
        Some(i) => i,
        None => {
            return Err(
                PatchError {
                    path: String::from_str(path),
                    kind: PatchErrorKind::MissingUpdateErrorBlock,
                },
            );
        },
    };
    proof {
        lemma_find_from(s@, catch_marker@, body_start as int);
    }
    let close_start = match rfind_within_exec(
        s.as_slice(),
        close_marker.as_slice(),
        body_start,
        catch_start,
    ) {
        Some(i) => i,
        None => {
            return Err(
                PatchError {
                    path: String::from_str(path),
                    kind: PatchErrorKind::MissingUpdateBlockEnd,
                },
            );
        },
    };
    proof {
        lemma_rfind_within(s@, close_marker@, body_start as int, catch_start as int);
    }
    let body = chars_of(UPDATER_BODY);
    let mut t: Vec<char> = Vec::new();
    push_range(&mut t, s.as_slice(), 0, body_start);
    push_all(&mut t, body.as_slice());
    push_range(&mut t, s.as_slice(), close_start, s.len());
    assert(t@ =~= s@.take(body_start as int) + UPDATER_BODY@ + s@.skip(close_start as int));
    *contents = string_of(t.as_slice());
    Ok(())
}

/// Adds executor version resolution to the bootstrapper, lets every build
/// check for updates, and hands updates to the installer.
pub fn inject_bootstrapper(contents: &mut String, path: &str) -> (r: Result<(), PatchError>)
    ensures
        patched_as(old(contents)@, final(contents)@, path@, r, bootstrapper_spec(old(contents)@)),
{
    proof {
        lemma_markers_nonempty();
    }
    let mut t = contents.clone();
    replace_once(&mut t, VERSION_MARKER, EXECUTOR_RESOLUTION, path)?;
    t = replace_all_str(t.as_str(), PRODUCTION_UPDATE_CHECK, UPDATE_CHECK);
    replace_updater_body(&mut t, path)?;
    *contents = t;
    Ok(())
}

/// The settings source with the compatibility property added at the top of
/// the settings class body, or `None` when the property is already there.
pub open spec fn settings_compatibility_spec(s: Seq<char>) -> Result<
    Option<Seq<char>>,
    PatchErrorKind,
> {
    if contains(s, COMPATIBILITY_PROPERTY_NAME@) {
        Ok(None)
    } else {
        match find_from(s, SETTINGS_CLASS_MARKER@, 0) {
            None => Err(PatchErrorKind::MissingSettingsClass),
            Some(class_start) => match find_from(s, seq!['{'], class_start) {
                None => Err(PatchErrorKind::MissingSettingsBody),
                Some(brace) => Ok(
                    Some(s.take(brace + 1) + SETTINGS_PROPERTY@ + s.skip(brace + 1)),
                ),
            },
        }
    }
}

/// Adds the compatibility property to the settings class unless the sources
/// already have it; says whether it was added.  On failure `contents` is left
/// as it was.
pub fn ensure_settings_compatibility(contents: &mut String, path: &str) -> (r: Result<
    bool,
    PatchError,
>)
    ensures
        match settings_compatibility_spec(old(contents)@) {
            Ok(None) => r == Ok::<bool, PatchError>(false) && final(contents)@ == old(contents)@,
            Ok(Some(t)) => r == Ok::<bool, PatchError>(true) && final(contents)@ == t,
            Err(k) => r matches Err(e) && e.path@ == path@ && e.kind == k && final(contents)@
                == old(contents)@,
        },
{
    let s = chars_of(contents.as_str());
    let name = chars_of(COMPATIBILITY_PROPERTY_NAME);
    if find_from_exec(s.as_slice(), name.as_slice(), 0).is_some() {
        return Ok(false);
    }
    let class_marker = chars_of(SETTINGS_CLASS_MARKER);
    let class_start = match find_from_exec(s.as_slice(), class_marker.as_slice(), 0) {
        Some(i) => i,
        None => {
            return Err(
                PatchError {
                    path: String::from_str(path),
                    kind: PatchErrorKind::MissingSettingsClass,
                },
            );
        },
    };
    let brace_marker = vec!['{'];
    assert(brace_marker@ =~= seq!['{']);
    let brace = match find_from_exec(s.as_slice(), brace_marker.as_slice(), class_start) {
        Some(i) => i,
        None => {
            return Err(
                PatchError {
                    path: String::from_str(path),
                    kind: PatchErrorKind::MissingSettingsBody,
                },
            );
        },
    };
    proof {
        lemma_find_from(s@, brace_marker@, class_start as int);
        assert(matches_at(s@, brace_marker@, brace as int));
        assert(brace + 1 <= s.len());
    }
    let property = chars_of(SETTINGS_PROPERTY);
    let mut t: Vec<char> = Vec::new();
    push_range(&mut t, s.as_slice(), 0, brace + 1);
    push_all(&mut t, property.as_slice());
    push_range(&mut t, s.as_slice(), brace + 1, s.len());
    assert(t@ =~= s@.take(brace + 1) + SETTINGS_PROPERTY@ + s@.skip(brace + 1));
    *contents = string_of(t.as_slice());
    Ok(true)
}

/// A source file: where it is, as shown to the user, and its text.
pub struct SourceFile {
    /// The file, as shown to the user.
    pub path: String,
    /// The text of the file.
    pub contents: String,
}

/// The Fishstrap source files that the integrations patch.
pub struct SourceFiles {
    /// The settings model.
    pub settings: SourceFile,
    /// The application start-up code.
    pub app: SourceFile,
    /// The settings window.
    pub main_window: SourceFile,
    /// The channel settings page.
    pub channel_page: SourceFile,
    /// The channel view model.
    pub channel_view_model: SourceFile,
    /// The bootstrapper.
    pub bootstrapper: SourceFile,
}

/// The `i`-th file in patching order.
pub open spec fn file_at(files: SourceFiles, i: int) -> SourceFile {
    if i == 0 {
        files.settings
    } else if i == 1 {
        files.app
    } else if i == 2 {
        files.main_window
    } else if i == 3 {
        files.channel_page
    } else if i == 4 {
        files.channel_view_model
    } else {
        files.bootstrapper
    }
}

/// The patch of the `i`-th file, applied to the text `s`.
pub open spec fn patch_at(i: int, s: Seq<char>) -> Result<Seq<char>, PatchErrorKind> {
    if i == 0 {
        settings_partial_spec(s)
    } else if i == 1 {
        app_startup_spec(s)
    } else if i == 2 {
        settings_navigation_spec(s)
    } else if i == 3 {
        channel_interface_spec(s)
    } else if i == 4 {
        channel_view_model_spec(s)
    } else {
        bootstrapper_spec(s)
    }
}

/// The patches of the files before the `i`-th all apply.
pub open spec fn patches_apply_before(files: SourceFiles, i: int) -> bool {
    forall|j: int| 0 <= j < i ==> (#[trigger] patch_at(j, file_at(files, j).contents@)) is Ok
}

/// After patching, the `i`-th file kept its path, and holds its patched text
/// if every patch up to and including its own applied, and its old text
/// otherwise.
pub open spec fn file_patched(old_files: SourceFiles, new_files: SourceFiles, i: int) -> bool {
    let before = file_at(old_files, i);
    let after = file_at(new_files, i);
    &&& after.path@ == before.path@
    &&& if patches_apply_before(old_files, i) {
        match patch_at(i, before.contents@) {
            Ok(t) => after.contents@ == t,
            Err(_) => after.contents@ == before.contents@,
        }
    } else {
        after.contents@ == before.contents@
    }
}

/// Applies the integration of the `index`-th source file in patching order
/// (settings model, start-up code, settings window, channel page, channel
/// view model, bootstrapper) to its text; on failure the text is left as it
/// was and the error names `path`.
pub fn patch_source(index: usize, contents: &mut String, path: &str) -> (r: Result<(), PatchError>)
    requires
        index < 6,
    ensures
        patched_as(old(contents)@, final(contents)@, path@, r, patch_at(index as int, old(contents)@)),
{
    proof {
        lemma_markers_nonempty();
    }
    if index == 0 {
        replace_once(contents, SETTINGS_CLASS, SETTINGS_PARTIAL_CLASS, path)
    } else if index == 1 {
        inject_app_startup(contents, path)
    } else if index == 2 {
        inject_settings_navigation(contents, path)
    } else if index == 3 {
        inject_channel_interface(contents, path)
    } else if index == 4 {
        inject_channel_view_model(contents, path)
    } else {
        inject_bootstrapper(contents, path)
    }
}

/// Applies every integration to its source file, in order, stopping at the
/// first file whose patch does not apply: the files before it are patched,
/// it and the files after it are left as they were, and the error names it.
pub fn inject_source_changes(files: &mut SourceFiles) -> (r: Result<(), PatchError>)
    ensures
        forall|i: int| 0 <= i < 6 ==> file_patched(*old(files), *final(files), i),
        r is Ok <==> patches_apply_before(*old(files), 6),
        r matches Err(e) ==> exists|i: int|
            0 <= i < 6 && patches_apply_before(*old(files), i) && #[trigger] patch_at(
                i,
                file_at(*old(files), i).contents@,
            ) == Err::<Seq<char>, PatchErrorKind>(e.kind) && e.path@ == file_at(
                *old(files),
                i,
            ).path@,
{
    proof {
        lemma_markers_nonempty();
    }
    let ghost old_files = *files;
    let r0 = replace_once(
        &mut files.settings.contents,
        SETTINGS_CLASS,
        SETTINGS_PARTIAL_CLASS,
        files.settings.path.as_str(),
    );
    assert(patch_at(0, file_at(old_files, 0).contents@) == settings_partial_spec(
        old_files.settings.contents@,
    ));
    if let Err(e) = r0 {
        assert(!patches_apply_before(old_files, 1));
        assert(forall|i: int| 1 <= i < 6 ==> !patches_apply_before(old_files, i));
        return Err(e);
    }
    let r1 = inject_app_startup(&mut files.app.contents, files.app.path.as_str());
    assert(patch_at(1, file_at(old_files, 1).contents@) == app_startup_spec(
        old_files.app.contents@,
    ));
    if let Err(e) = r1 {
        assert(forall|i: int| 2 <= i < 6 ==> !patches_apply_before(old_files, i));
        return Err(e);
    }
    let r2 = inject_settings_navigation(
        &mut files.main_window.contents,
        files.main_window.path.as_str(),
    );
    assert(patch_at(2, file_at(old_files, 2).contents@) == settings_navigation_spec(
        old_files.main_window.contents@,
    ));
    if let Err(e) = r2 {
        assert(forall|i: int| 3 <= i < 6 ==> !patches_apply_before(old_files, i));
        return Err(e);
    }
    let r3 = inject_channel_interface(
        &mut files.channel_page.contents,
        files.channel_page.path.as_str(),
    );
    assert(patch_at(3, file_at(old_files, 3).contents@) == channel_interface_spec(
        old_files.channel_page.contents@,
    ));
    if let Err(e) = r3 {
        assert(forall|i: int| 4 <= i < 6 ==> !patches_apply_before(old_files, i));
        return Err(e);
    }
    let r4 = inject_channel_view_model(
        &mut files.channel_view_model.contents,
        files.channel_view_model.path.as_str(),
    );
    assert(patch_at(4, file_at(old_files, 4).contents@) == channel_view_model_spec(
        old_files.channel_view_model.contents@,
    ));
    if let Err(e) = r4 {
        assert(!patches_apply_before(old_files, 5));
        return Err(e);
    }
    let r5 = inject_bootstrapper(
        &mut files.bootstrapper.contents,
        files.bootstrapper.path.as_str(),
    );
    assert(patch_at(5, file_at(old_files, 5).contents@) == bootstrapper_spec(
        old_files.bootstrapper.contents@,
    ));
    r5
}

/// The compatibility property is added at most once: on sources that it was
/// just added to, the next run finds it and changes nothing.
pub proof fn lemma_settings_compatibility_once(s: Seq<char>)
    ensures
        settings_compatibility_spec(s) matches Ok(Some(t)) ==> settings_compatibility_spec(t)
            == Ok::<Option<Seq<char>>, PatchErrorKind>(None),
{
    if let Ok(Some(t)) = settings_compatibility_spec(s) {
        let class_start = find_from(s, SETTINGS_CLASS_MARKER@, 0)->0;
        lemma_find_from(s, SETTINGS_CLASS_MARKER@, 0);
        let brace = find_from(s, seq!['{'], class_start)->0;
        lemma_find_from(s, seq!['{'], class_start);
        reveal_strlit(
            "\n        public DiscordRPCStatusDisplay RichPresenceStatusDisplayType { get; set; } = DiscordRPCStatusDisplay.Name;\n",
        );
        reveal_strlit("RichPresenceStatusDisplayType");
        let at = brace + 1 + 40;
        assert(t.subrange(at, at + 29) =~= COMPATIBILITY_PROPERTY_NAME@);
        assert(matches_at(t, COMPATIBILITY_PROPERTY_NAME@, at));
        lemma_find_from(t, COMPATIBILITY_PROPERTY_NAME@, 0);
    }
}

/// The `try` block that is rewritten is the one of the update method: when
/// the rewrite succeeds, the replaced body starts right after the first
/// `try` opening at or after the first update method header, and ends at the
/// last block closing before the first `catch` clause after that opening.
/// Everything before the body, the method header and any earlier `try`
/// block included, is kept as it was, and so is everything from that
/// closing on.
pub proof fn lemma_updater_body_in_update_method(s: Seq<char>)
    ensures
        updater_body_spec(s) matches Ok(t) ==> exists|m: int, k: int, e: int, c: int|
            #![trigger first_match_from(s, UPDATE_METHOD_MARKER@, 0, m), first_match_from(s, UPDATE_TRY_MARKER@, m, k), first_match_from(s, UPDATE_CATCH_MARKER@, k + UPDATE_TRY_MARKER@.len(), e), matches_at(s, UPDATE_CLOSE_MARKER@, c)]
            {
                &&& first_match_from(s, UPDATE_METHOD_MARKER@, 0, m)
                &&& first_match_from(s, UPDATE_TRY_MARKER@, m, k)
                &&& first_match_from(s, UPDATE_CATCH_MARKER@, k + UPDATE_TRY_MARKER@.len(), e)
                &&& k + UPDATE_TRY_MARKER@.len() <= c
                &&& c + UPDATE_CLOSE_MARKER@.len() <= e
                &&& matches_at(s, UPDATE_CLOSE_MARKER@, c)
                &&& forall|j: int|
                    c < j && j + UPDATE_CLOSE_MARKER@.len() <= e ==> !#[trigger] matches_at(
                        s,
                        UPDATE_CLOSE_MARKER@,
                        j,
                    )
                &&& t.take(m) == s.take(m)
                &&& t.take(k + UPDATE_TRY_MARKER@.len()) == s.take(k + UPDATE_TRY_MARKER@.len())
                &&& t == s.take(k + UPDATE_TRY_MARKER@.len()) + UPDATER_BODY@ + s.skip(c)
            },
{
    if let Ok(t) = updater_body_spec(s) {
        let m = find_from(s, UPDATE_METHOD_MARKER@, 0)->0;
        lemma_find_from(s, UPDATE_METHOD_MARKER@, 0);
        let k = find_from(s, UPDATE_TRY_MARKER@, m)->0;
        lemma_find_from(s, UPDATE_TRY_MARKER@, m);
        let b = k + UPDATE_TRY_MARKER@.len();
        let e = find_from(s, UPDATE_CATCH_MARKER@, b)->0;
        lemma_find_from(s, UPDATE_CATCH_MARKER@, b);
        let c = rfind_within(s, UPDATE_CLOSE_MARKER@, b, e)->0;
        lemma_rfind_within(s, UPDATE_CLOSE_MARKER@, b, e);
        assert(first_match_from(s, UPDATE_METHOD_MARKER@, 0, m));
        assert(first_match_from(s, UPDATE_TRY_MARKER@, m, k));
        assert(first_match_from(s, UPDATE_CATCH_MARKER@, b, e));
        assert(t.take(b) =~= s.take(b));
        assert(t.take(m) =~= s.take(m));
        assert(matches_at(s, UPDATE_CLOSE_MARKER@, c));
    }
}

/// `t` holds a Windows line ending `\r\n`.
pub open spec fn has_crlf(t: Seq<char>) -> bool {
    exists|k: int| 0 <= k && k + 1 < t.len() && #[trigger] t[k] == '\r' && t[k + 1] == '\n'
}

/// `t` holds two carriage returns in a row.
pub open spec fn has_double_cr(t: Seq<char>) -> bool {
    exists|k: int| 0 <= k && k + 1 < t.len() && #[trigger] t[k] == '\r' && t[k + 1] == '\r'
}

proof fn lemma_no_crlf_concat(a: Seq<char>, b: Seq<char>)
    requires
        !has_crlf(a),
        !has_crlf(b),
        !(a.len() > 0 && b.len() > 0 && a.last() == '\r' && b[0] == '\n'),
    ensures
        !has_crlf(a + b),
{
    let t = a + b;
    assert forall|k: int| 0 <= k && k + 1 < t.len() implies !(#[trigger] t[k] == '\r' && t[k + 1]
        == '\n') by {
        if k + 1 < a.len() {
            assert(t[k] == a[k] && t[k + 1] == a[k + 1]);
        } else if k + 1 == a.len() {
            assert(t[k] == a.last() && t[k + 1] == b[0]);
        } else {
            assert(t[k] == b[k - a.len()] && t[k + 1] == b[k + 1 - a.len()]);
        }
    }
}

proof fn lemma_normalized_from(s: Seq<char>, from: int)
    requires
        0 <= from <= s.len(),
        !has_double_cr(s),
        "\r\n"@ == seq!['\r', '\n'],
        "\n"@ == seq!['\n'],
    ensures
        !has_crlf(replace_all_from(s, "\r\n"@, "\n"@, from)),
    decreases s.len() + 1 - from,
{
    let m = "\r\n"@;
    lemma_find_from(s, m, from);
    match find_from(s, m, from) {
        None => {
            let t = s.skip(from);
            assert forall|k: int| 0 <= k && k + 1 < t.len() implies !(#[trigger] t[k] == '\r'
                && t[k + 1] == '\n') by {
                if t[k] == '\r' && t[k + 1] == '\n' {
                    assert(s.subrange(from + k, from + k + 2) =~= m);
                    assert(matches_at(s, m, from + k));
                }
            }
        },
        Some(i) => {
            let seg = s.subrange(from, i);
            assert forall|k: int| 0 <= k && k + 1 < seg.len() implies !(#[trigger] seg[k] == '\r'
                && seg[k + 1] == '\n') by {
                if seg[k] == '\r' && seg[k + 1] == '\n' {
                    assert(s.subrange(from + k, from + k + 2) =~= m);
                    assert(matches_at(s, m, from + k));
                }
            }
            assert(s.subrange(i, i + 2) == m);
            assert(s[i] == '\r');
            if seg.len() > 0 {
                assert(seg.last() == s[i - 1]);
                if s[i - 1] == '\r' {
                    assert(s[i - 1] == '\r' && s[i] == '\r');
                }
            }
            let nl = "\n"@;
            assert(!has_crlf(nl)) by {
                assert forall|k: int| 0 <= k && k + 1 < nl.len() implies !(#[trigger] nl[k] == '\r'
                    && nl[k + 1] == '\n') by {}
            }
            lemma_no_crlf_concat(seg, nl);
            lemma_normalized_from(s, i + 2);
            let rest = replace_all_from(s, m, nl, i + 2);
            assert((seg + nl).last() == '\n');
            lemma_no_crlf_concat(seg + nl, rest);
        },
    }
}

/// Normalized source text holds no Windows line ending, unless the original
/// had two carriage returns in a row (the first of which then survives in
/// front of a newline).
pub proof fn lemma_normalized_has_no_crlf(s: Seq<char>)
    requires
        !has_double_cr(s),
    ensures
        !has_crlf(normalize_newlines_spec(s)),
{
    reveal_strlit("\r\n");
    reveal_strlit("\n");
    assert("\r\n"@ =~= seq!['\r', '\n']);
    assert("\n"@ =~= seq!['\n']);
    lemma_normalized_from(s, 0);
}

} // verus!
