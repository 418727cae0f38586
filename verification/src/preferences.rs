//! Agent preferences: the sanitisation applied whenever preferences are read or written,
//! and the cached store that serves them.
use vstd::prelude::*;

use crate::protocol::{
    RemoteTerminalAgentPreferencesData, RemoteTerminalQuickCommandData, RemoteTerminalShortcutData,
    RemoteTerminalShortcutKind, RemoteTerminalShortcutModifier,
};
use crate::text::{
    is_blank, is_blank_seq, lemma_trim_bounds, lemma_trim_idempotent, owned, strings_view, trim,
    trim_seq,
};

verus! {

/// A shortcut as sequences of characters.
pub struct ShortcutView {
    pub id: Seq<char>,
    pub label: Seq<char>,
    pub kind: RemoteTerminalShortcutKind,
    pub sequence: Seq<Seq<char>>,
    pub key: Seq<char>,
    pub modifiers: Seq<RemoteTerminalShortcutModifier>,
    pub preset: bool,
}

/// A quick command as sequences of characters.
pub struct QuickCommandView {
    pub id: Seq<char>,
    pub label: Seq<char>,
    pub command: Seq<char>,
}

/// Preferences as sequences of characters.
pub struct PreferencesView {
    pub default_working_directory: Seq<char>,
    pub shortcuts: Seq<ShortcutView>,
    pub quick_commands: Seq<QuickCommandView>,
}

impl View for RemoteTerminalShortcutData {
    type V = ShortcutView;

    open spec fn view(&self) -> ShortcutView {
        ShortcutView {
            id: self.id@,
            label: self.label@,
            kind: self.kind,
            sequence: strings_view(self.sequence@),
            key: self.key@,
            modifiers: self.modifiers@,
            preset: self.preset,
        }
    }
}

impl View for RemoteTerminalQuickCommandData {
    type V = QuickCommandView;

    open spec fn view(&self) -> QuickCommandView {
        QuickCommandView { id: self.id@, label: self.label@, command: self.command@ }
    }
}

impl View for RemoteTerminalAgentPreferencesData {
    type V = PreferencesView;

    open spec fn view(&self) -> PreferencesView {
        PreferencesView {
            default_working_directory: self.default_working_directory@,
            shortcuts: self.shortcuts@.map_values(|s: RemoteTerminalShortcutData| s@),
            quick_commands: self.quick_commands@.map_values(
                |q: RemoteTerminalQuickCommandData| q@,
            ),
        }
    }
}

/// The entries of a key sequence that are not blank, in order.
pub open spec fn non_blank_entries(s: Seq<Seq<char>>) -> Seq<Seq<char>>
    decreases s.len(),
{
    if s.len() == 0 {
        s
    } else if is_blank_seq(s.last()) {
        non_blank_entries(s.drop_last())
    } else {
        non_blank_entries(s.drop_last()).push(s.last())
    }
}

/// A shortcut as it is kept: the id and key trimmed, blank sequence entries dropped; it is
/// dropped when its id is blank, when a key shortcut has no key, or when a sequence
/// shortcut has no entries.
pub open spec fn sanitized_shortcut(s: ShortcutView) -> Option<ShortcutView> {
    let id = trim_seq(s.id);
    let sequence = non_blank_entries(s.sequence);
    let key = trim_seq(s.key);
    if id.len() == 0 {
        None
    } else if s.kind == RemoteTerminalShortcutKind::Key && key.len() == 0 {
        None
    } else if s.kind == RemoteTerminalShortcutKind::Sequence && sequence.len() == 0 {
        None
    } else {
        Some(
            ShortcutView {
                id,
                label: s.label,
                kind: s.kind,
                sequence,
                key,
                modifiers: s.modifiers,
                preset: s.preset,
            },
        )
    }
}

/// The shortcuts that are kept, sanitised, in order.
pub open spec fn sanitized_shortcuts(items: Seq<ShortcutView>) -> Seq<ShortcutView>
    decreases items.len(),
{
    if items.len() == 0 {
        items
    } else {
        match sanitized_shortcut(items.last()) {
            Some(s) => sanitized_shortcuts(items.drop_last()).push(s),
            None => sanitized_shortcuts(items.drop_last()),
        }
    }
}

/// A quick command as it is kept: all fields trimmed; dropped when any is blank.
pub open spec fn sanitized_quick_command(q: QuickCommandView) -> Option<QuickCommandView> {
    let id = trim_seq(q.id);
    let label = trim_seq(q.label);
    let command = trim_seq(q.command);
    if id.len() == 0 || label.len() == 0 || command.len() == 0 {
        None
    } else {
        Some(QuickCommandView { id, label, command })
    }
}

/// The quick commands that are kept, sanitised, in order.
pub open spec fn sanitized_quick_commands(items: Seq<QuickCommandView>) -> Seq<QuickCommandView>
    decreases items.len(),
{
    if items.len() == 0 {
        items
    } else {
        match sanitized_quick_command(items.last()) {
            Some(q) => sanitized_quick_commands(items.drop_last()).push(q),
            None => sanitized_quick_commands(items.drop_last()),
        }
    }
}

/// Preferences as they are stored and served.
pub open spec fn sanitized_preferences(p: PreferencesView) -> PreferencesView {
    PreferencesView {
        default_working_directory: trim_seq(p.default_working_directory),
        shortcuts: sanitized_shortcuts(p.shortcuts),
        quick_commands: sanitized_quick_commands(p.quick_commands),
    }
}

/// The preferences served when none are stored.
pub open spec fn empty_preferences() -> PreferencesView {
    PreferencesView {
        default_working_directory: Seq::<char>::empty(),
        shortcuts: Seq::<ShortcutView>::empty(),
        quick_commands: Seq::<QuickCommandView>::empty(),
    }
}

fn copy_strings(v: &Vec<String>) -> (r: Vec<String>)
    ensures
        strings_view(r@) == strings_view(v@),
{
    let mut out: Vec<String> = Vec::new();
    let mut i: usize = 0;
    while i < v.len()
        invariant
            i <= v.len(),
            strings_view(out@) =~= strings_view(v@).take(i as int),
        decreases v.len() - i,
    {
        let s = owned(v[i].as_str());
        let ghost before = out@;
        out.push(s);
        assert(strings_view(out@) =~= strings_view(before).push(s@));
        i = i + 1;
    }
    assert(strings_view(v@).take(v.len() as int) =~= strings_view(v@));
    out
}

fn copy_modifiers(v: &Vec<RemoteTerminalShortcutModifier>) -> (r: Vec<RemoteTerminalShortcutModifier>)
    ensures
        r@ == v@,
{
    let mut out: Vec<RemoteTerminalShortcutModifier> = Vec::new();
    let mut i: usize = 0;
    while i < v.len()
        invariant
            i <= v.len(),
            out@ =~= v@.take(i as int),
        decreases v.len() - i,
    {
        out.push(v[i]);
        i = i + 1;
    }
    assert(v@.take(v.len() as int) =~= v@);
    out
}

fn copy_shortcut(s: &RemoteTerminalShortcutData) -> (r: RemoteTerminalShortcutData)
    ensures
        r@ == s@,
{
    RemoteTerminalShortcutData {
        id: owned(s.id.as_str()),
        label: owned(s.label.as_str()),
        kind: s.kind,
        sequence: copy_strings(&s.sequence),
        key: owned(s.key.as_str()),
        modifiers: copy_modifiers(&s.modifiers),
        preset: s.preset,
    }
}

fn copy_quick_command(q: &RemoteTerminalQuickCommandData) -> (r: RemoteTerminalQuickCommandData)
    ensures
        r@ == q@,
{
    RemoteTerminalQuickCommandData {
        id: owned(q.id.as_str()),
        label: owned(q.label.as_str()),
        command: owned(q.command.as_str()),
    }
}

/// A copy of a set of preferences.
pub fn copy_preferences(p: &RemoteTerminalAgentPreferencesData) -> (r:
    RemoteTerminalAgentPreferencesData)
    ensures
        r@ == p@,
{
    let mut shortcuts: Vec<RemoteTerminalShortcutData> = Vec::new();
    let mut i: usize = 0;
    while i < p.shortcuts.len()
        invariant
            i <= p.shortcuts.len(),
            shortcuts@.map_values(|s: RemoteTerminalShortcutData| s@) =~= p.shortcuts@.map_values(
                |s: RemoteTerminalShortcutData| s@,
            ).take(i as int),
        decreases p.shortcuts.len() - i,
    {
        let c = copy_shortcut(&p.shortcuts[i]);
        let ghost before = shortcuts@;
        shortcuts.push(c);
        assert(shortcuts@.map_values(|s: RemoteTerminalShortcutData| s@) =~= before.map_values(
            |s: RemoteTerminalShortcutData| s@,
        ).push(c@));
        i = i + 1;
    }
    let mut quick_commands: Vec<RemoteTerminalQuickCommandData> = Vec::new();
    let mut j: usize = 0;
    while j < p.quick_commands.len()
        invariant
            j <= p.quick_commands.len(),
            quick_commands@.map_values(|q: RemoteTerminalQuickCommandData| q@)
                =~= p.quick_commands@.map_values(|q: RemoteTerminalQuickCommandData| q@).take(
                j as int,
            ),
        decreases p.quick_commands.len() - j,
    {
        let c = copy_quick_command(&p.quick_commands[j]);
        let ghost before = quick_commands@;
        quick_commands.push(c);
        assert(quick_commands@.map_values(|q: RemoteTerminalQuickCommandData| q@) =~= before.map_values(
            |q: RemoteTerminalQuickCommandData| q@,
        ).push(c@));
        j = j + 1;
    }
    assert(p.shortcuts@.map_values(|s: RemoteTerminalShortcutData| s@).take(
        p.shortcuts.len() as int,
    ) =~= p.shortcuts@.map_values(|s: RemoteTerminalShortcutData| s@));
    assert(p.quick_commands@.map_values(|q: RemoteTerminalQuickCommandData| q@).take(
        p.quick_commands.len() as int,
    ) =~= p.quick_commands@.map_values(|q: RemoteTerminalQuickCommandData| q@));
    let r = RemoteTerminalAgentPreferencesData {
        default_working_directory: owned(p.default_working_directory.as_str()),
        shortcuts,
        quick_commands,
    };
    assert(r@.shortcuts =~= p@.shortcuts);
    assert(r@.quick_commands =~= p@.quick_commands);
    r
}

fn sanitize_sequence(entries: &Vec<String>) -> (r: Vec<String>)
    ensures
        strings_view(r@) == non_blank_entries(strings_view(entries@)),
{
    let mut out: Vec<String> = Vec::new();
    let ghost all = strings_view(entries@);
    let mut i: usize = 0;
    while i < entries.len()
        invariant
            all == strings_view(entries@),
            i <= entries.len(),
            strings_view(out@) == non_blank_entries(all.take(i as int)),
        decreases entries.len() - i,
    {
        proof {
            assert(all.take(i + 1).drop_last() =~= all.take(i as int));
            assert(all.take(i + 1).last() == entries@[i as int]@);
        }
        if !is_blank(entries[i].as_str()) {
            let s = owned(entries[i].as_str());
            let ghost before = out@;
            out.push(s);
            assert(strings_view(out@) =~= strings_view(before).push(s@));
        }
        i = i + 1;
    }
    assert(all.take(entries.len() as int) =~= all);
    out
}

fn sanitize_shortcut(item: &RemoteTerminalShortcutData) -> (r: Option<RemoteTerminalShortcutData>)
    ensures
        match r {
            Some(s) => sanitized_shortcut(item@) == Some(s@),
            None => sanitized_shortcut(item@) is None,
        },
{
    let id = trim(item.id.as_str());
    if id.as_str().unicode_len() == 0 {
        return None;
    }
    let kind = match item.kind {
        RemoteTerminalShortcutKind::Key => RemoteTerminalShortcutKind::Key,
        _ => RemoteTerminalShortcutKind::Sequence,
    };
    let sequence = sanitize_sequence(&item.sequence);
    let key = trim(item.key.as_str());
    if kind == RemoteTerminalShortcutKind::Key && key.as_str().unicode_len() == 0 {
        return None;
    }
    if kind == RemoteTerminalShortcutKind::Sequence && sequence.len() == 0 {
        return None;
    }
    let mut modifiers: Vec<RemoteTerminalShortcutModifier> = Vec::new();
    let mut i: usize = 0;
    while i < item.modifiers.len()
        invariant
            i <= item.modifiers.len(),
            modifiers@ =~= item.modifiers@.take(i as int),
        decreases item.modifiers.len() - i,
    {
        let m = item.modifiers[i];
        match m {
            RemoteTerminalShortcutModifier::Ctrl | RemoteTerminalShortcutModifier::Alt
            | RemoteTerminalShortcutModifier::Shift | RemoteTerminalShortcutModifier::Meta => {
                modifiers.push(m);
            },
        }
        i = i + 1;
    }
    assert(item.modifiers@.take(item.modifiers.len() as int) =~= item.modifiers@);
    Some(
        RemoteTerminalShortcutData {
            id,
            label: owned(item.label.as_str()),
            kind,
            sequence,
            key,
            modifiers,
            preset: item.preset,
        },
    )
}

/// Keeps the valid shortcuts, trimmed (see `sanitized_shortcut`), in order.
pub fn sanitize_shortcuts(items: Vec<RemoteTerminalShortcutData>) -> (r: Vec<
    RemoteTerminalShortcutData,
>)
    ensures
        r@.map_values(|s: RemoteTerminalShortcutData| s@) == sanitized_shortcuts(
            items@.map_values(|s: RemoteTerminalShortcutData| s@),
        ),
{
    let ghost all = items@.map_values(|s: RemoteTerminalShortcutData| s@);
    let mut out: Vec<RemoteTerminalShortcutData> = Vec::new();
    let mut i: usize = 0;
    while i < items.len()
        invariant
            all == items@.map_values(|s: RemoteTerminalShortcutData| s@),
            i <= items.len(),
            out@.map_values(|s: RemoteTerminalShortcutData| s@) == sanitized_shortcuts(
                all.take(i as int),
            ),
        decreases items.len() - i,
    {
        proof {
            assert(all.take(i + 1).drop_last() =~= all.take(i as int));
            assert(all.take(i + 1).last() == items@[i as int]@);
        }
        match sanitize_shortcut(&items[i]) {
            Some(s) => {
                let ghost before = out@;
                out.push(s);
                assert(out@.map_values(|s: RemoteTerminalShortcutData| s@) =~= before.map_values(
                    |s: RemoteTerminalShortcutData| s@,
                ).push(s@));
            },
            None => {},
        }
        i = i + 1;
    }
    assert(all.take(items.len() as int) =~= all);
    out
}

/// Keeps the quick commands whose fields are all non-blank, trimmed, in order.
pub fn sanitize_quick_commands(items: Vec<RemoteTerminalQuickCommandData>) -> (r: Vec<
    RemoteTerminalQuickCommandData,
>)
    ensures
        r@.map_values(|q: RemoteTerminalQuickCommandData| q@) == sanitized_quick_commands(
            items@.map_values(|q: RemoteTerminalQuickCommandData| q@),
        ),
{
    let ghost all = items@.map_values(|q: RemoteTerminalQuickCommandData| q@);
    let mut out: Vec<RemoteTerminalQuickCommandData> = Vec::new();
    let mut i: usize = 0;
    while i < items.len()
        invariant
            all == items@.map_values(|q: RemoteTerminalQuickCommandData| q@),
            i <= items.len(),
            out@.map_values(|q: RemoteTerminalQuickCommandData| q@) == sanitized_quick_commands(
                all.take(i as int),
            ),
        decreases items.len() - i,
    {
        proof {
            assert(all.take(i + 1).drop_last() =~= all.take(i as int));
            assert(all.take(i + 1).last() == items@[i as int]@);
        }
        let item = &items[i];
        let id = trim(item.id.as_str());
        let label = trim(item.label.as_str());
        let command = trim(item.command.as_str());
        if id.as_str().unicode_len() != 0 && label.as_str().unicode_len() != 0
            && command.as_str().unicode_len() != 0 {
            let q = RemoteTerminalQuickCommandData { id, label, command };
            let ghost before = out@;
            out.push(q);
            assert(out@.map_values(|q: RemoteTerminalQuickCommandData| q@) =~= before.map_values(
                |q: RemoteTerminalQuickCommandData| q@,
            ).push(q@));
        }
        i = i + 1;
    }
    assert(all.take(items.len() as int) =~= all);
    out
}

/// Trims the working directory and sanitises the shortcuts and quick commands.
pub fn sanitize_preferences(preferences: RemoteTerminalAgentPreferencesData) -> (r:
    RemoteTerminalAgentPreferencesData)
    ensures
        r@ == sanitized_preferences(preferences@),
{
    let RemoteTerminalAgentPreferencesData { default_working_directory, shortcuts, quick_commands } =
        preferences;
    RemoteTerminalAgentPreferencesData {
        default_working_directory: trim(default_working_directory.as_str()),
        shortcuts: sanitize_shortcuts(shortcuts),
        quick_commands: sanitize_quick_commands(quick_commands),
    }
}

proof fn lemma_non_blank_entries_fixed(s: Seq<Seq<char>>)
    ensures
        non_blank_entries(non_blank_entries(s)) == non_blank_entries(s),
    decreases s.len(),
{
    if s.len() > 0 {
        lemma_non_blank_entries_fixed(s.drop_last());
        let r = non_blank_entries(s.drop_last());
        if !is_blank_seq(s.last()) {
            assert(r.push(s.last()).drop_last() =~= r);
        }
    }
}

proof fn lemma_shortcut_fixed(s: ShortcutView)
    requires
        sanitized_shortcut(s) is Some,
    ensures
        sanitized_shortcut(sanitized_shortcut(s)->0) == sanitized_shortcut(s),
{
    lemma_trim_idempotent(s.id);
    lemma_trim_idempotent(s.key);
    lemma_non_blank_entries_fixed(s.sequence);
}

proof fn lemma_shortcuts_fixed(items: Seq<ShortcutView>)
    ensures
        sanitized_shortcuts(sanitized_shortcuts(items)) == sanitized_shortcuts(items),
    decreases items.len(),
{
    if items.len() > 0 {
        lemma_shortcuts_fixed(items.drop_last());
        let r = sanitized_shortcuts(items.drop_last());
        if let Some(x) = sanitized_shortcut(items.last()) {
            lemma_shortcut_fixed(items.last());
            assert(r.push(x).drop_last() =~= r);
        }
    }
}

proof fn lemma_quick_commands_fixed(items: Seq<QuickCommandView>)
    ensures
        sanitized_quick_commands(sanitized_quick_commands(items)) == sanitized_quick_commands(items),
    decreases items.len(),
{
    if items.len() > 0 {
        lemma_quick_commands_fixed(items.drop_last());
        let r = sanitized_quick_commands(items.drop_last());
        let q = items.last();
        if let Some(x) = sanitized_quick_command(q) {
            lemma_trim_idempotent(q.id);
            lemma_trim_idempotent(q.label);
            lemma_trim_idempotent(q.command);
            assert(r.push(x).drop_last() =~= r);
        }
    }
}

/// Sanitising preferences that were already sanitised changes nothing.
pub proof fn lemma_sanitize_idempotent(p: PreferencesView)
    ensures
        sanitized_preferences(sanitized_preferences(p)) == sanitized_preferences(p),
{
    lemma_trim_idempotent(p.default_working_directory);
    lemma_shortcuts_fixed(p.shortcuts);
    lemma_quick_commands_fixed(p.quick_commands);
}

/// A shortcut is kept exactly when its trimmed id is not empty, a key shortcut has a key
/// and a sequence shortcut has a non-blank entry; a kept shortcut has the trimmed id and key
/// and the non-blank entries, and carries the input's label, kind, modifiers and preset
/// flag unchanged.
pub proof fn lemma_kept_shortcut_fields(s: ShortcutView)
    ensures
        (sanitized_shortcut(s) is Some) == (trim_seq(s.id).len() > 0 && (s.kind
            == RemoteTerminalShortcutKind::Key ==> trim_seq(s.key).len() > 0) && (s.kind
            == RemoteTerminalShortcutKind::Sequence ==> non_blank_entries(s.sequence).len() > 0)),
        sanitized_shortcut(s) matches Some(t) ==> {
            &&& t.label == s.label
            &&& t.id == trim_seq(s.id)
            &&& t.key == trim_seq(s.key)
            &&& t.kind == s.kind
            &&& t.modifiers == s.modifiers
            &&& t.preset == s.preset
            &&& t.sequence == non_blank_entries(s.sequence)
        },
{
}

/// Sanitising never adds shortcuts: every kept shortcut is the sanitised form of an input
/// shortcut, with that input's label.
pub proof fn lemma_sanitized_shortcuts_from_inputs(items: Seq<ShortcutView>)
    ensures
        sanitized_shortcuts(items).len() <= items.len(),
        forall|k: int|
            #![trigger sanitized_shortcuts(items)[k]]
            0 <= k < sanitized_shortcuts(items).len() ==> exists|i: int|
                0 <= i < items.len() && #[trigger] sanitized_shortcut(items[i]) == Some(
                    sanitized_shortcuts(items)[k],
                ) && sanitized_shortcuts(items)[k].label == items[i].label,
    decreases items.len(),
{
    if items.len() > 0 {
        let front = items.drop_last();
        lemma_sanitized_shortcuts_from_inputs(front);
        let out = sanitized_shortcuts(items);
        let prev = sanitized_shortcuts(front);
        assert forall|k: int| #![trigger out[k]] 0 <= k < out.len() implies exists|i: int|
            0 <= i < items.len() && #[trigger] sanitized_shortcut(items[i]) == Some(out[k])
                && out[k].label == items[i].label by {
            if k < prev.len() {
                assert(out[k] == prev[k]);
                let i = choose|i: int|
                    0 <= i < front.len() && #[trigger] sanitized_shortcut(front[i]) == Some(prev[k])
                        && prev[k].label == front[i].label;
                assert(items[i] == front[i]);
            } else {
                let j = items.len() - 1;
                assert(items[j] == items.last());
                lemma_kept_shortcut_fields(items.last());
            }
        }
    }
}

/// A kept quick command has its id, label and command trimmed and none of them empty; one
/// with a blank field is dropped.
pub proof fn lemma_kept_quick_command_fields(q: QuickCommandView)
    ensures
        (sanitized_quick_command(q) is Some) == (trim_seq(q.id).len() > 0 && trim_seq(q.label).len() > 0
            && trim_seq(q.command).len() > 0),
        sanitized_quick_command(q) matches Some(t) ==> t.id == trim_seq(q.id) && t.label == trim_seq(q.label)
            && t.command == trim_seq(q.command),
{
}

/// The on-disk form of the preferences file.
#[derive(Debug, Clone, Default)]
pub struct PersistedPreferencesFile {
    pub version: i32,
    pub default_working_directory: String,
    pub shortcuts: Vec<RemoteTerminalShortcutData>,
    pub quick_commands: Vec<RemoteTerminalQuickCommandData>,
}

/// The preferences a persisted file holds.
pub open spec fn persisted_view(f: PersistedPreferencesFile) -> PreferencesView {
    PreferencesView {
        default_working_directory: f.default_working_directory@,
        shortcuts: f.shortcuts@.map_values(|s: RemoteTerminalShortcutData| s@),
        quick_commands: f.quick_commands@.map_values(|q: RemoteTerminalQuickCommandData| q@),
    }
}

/// The preferences read from a file: the file's content sanitised, or empty preferences
/// when the file could not be read or parsed.
pub fn load_preferences(parsed: Option<PersistedPreferencesFile>) -> (r:
    RemoteTerminalAgentPreferencesData)
    ensures
        r@ == match parsed {
            Some(f) => sanitized_preferences(persisted_view(f)),
            None => empty_preferences(),
        },
{
    match parsed {
        Some(f) => sanitize_preferences(
            RemoteTerminalAgentPreferencesData {
                default_working_directory: f.default_working_directory,
                shortcuts: f.shortcuts,
                quick_commands: f.quick_commands,
            },
        ),
        None => {
            let r = RemoteTerminalAgentPreferencesData {
                default_working_directory: String::new(),
                shortcuts: Vec::new(),
                quick_commands: Vec::new(),
            };
            assert(r@.shortcuts =~= Seq::<ShortcutView>::empty());
            assert(r@.quick_commands =~= Seq::<QuickCommandView>::empty());
            r
        },
    }
}

/// Counts of the stored preferences, as shown by `rtc-agent status`.
#[derive(Debug, Clone)]
pub struct PreferencesSummary {
    pub default_working_directory: String,
    pub shortcuts_count: usize,
    pub quick_commands_count: usize,
}

/// Summarises preferences: the working directory and how many shortcuts and quick
/// commands there are.
pub fn read_preferences_summary(preferences: &RemoteTerminalAgentPreferencesData) -> (r:
    PreferencesSummary)
    ensures
        r.default_working_directory@ == preferences.default_working_directory@,
        r.shortcuts_count == preferences.shortcuts.len(),
        r.quick_commands_count == preferences.quick_commands.len(),
{
    PreferencesSummary {
        default_working_directory: owned(preferences.default_working_directory.as_str()),
        shortcuts_count: preferences.shortcuts.len(),
        quick_commands_count: preferences.quick_commands.len(),
    }
}

/// The preferences of one preferences file, cached after the first read or write.
pub struct PreferencesStore {
    file_path: String,
    cache: Option<RemoteTerminalAgentPreferencesData>,
}

impl PreferencesStore {
    /// The preferences file this store reads and writes.
    pub closed spec fn path(&self) -> Seq<char> {
        self.file_path@
    }

    /// The cached preferences, if they have been read or written.
    pub closed spec fn cached(&self) -> Option<PreferencesView> {
        match self.cache {
            Some(p) => Some(p@),
            None => None,
        }
    }

    /// Cached preferences are always in sanitised form.
    pub open spec fn well_formed(&self) -> bool {
        match self.cached() {
            Some(p) => sanitized_preferences(p) == p,
            None => true,
        }
    }

    /// What `get_preferences` serves.
    pub open spec fn served(&self) -> PreferencesView {
        match self.cached() {
            Some(p) => p,
            None => empty_preferences(),
        }
    }

    /// A store for the given file, with nothing cached yet.
    pub fn new(file_path: &str) -> (r: Self)
        ensures
            r.path() == file_path@,
            r.cached() is None,
            r.well_formed(),
    {
        PreferencesStore { file_path: owned(file_path), cache: None }
    }

    /// The preferences file this store reads and writes.
    pub fn file_path(&self) -> (r: &str)
        ensures
            r@ == self.path(),
    {
        self.file_path.as_str()
    }

    /// Whether the file still has to be read before preferences can be served.
    pub fn needs_load(&self) -> (r: bool)
        ensures
            r == (self.cached() is None),
    {
        self.cache.is_none()
    }

    /// Caches what was read from the file (see `load_preferences`), unless something is
    /// cached already.
    pub fn load(&mut self, parsed: Option<PersistedPreferencesFile>)
        requires
            old(self).well_formed(),
        ensures
            final(self).well_formed(),
            final(self).path() == old(self).path(),
            final(self).cached() == match old(self).cached() {
                Some(p) => Some(p),
                None => Some(
                    match parsed {
                        Some(f) => sanitized_preferences(persisted_view(f)),
                        None => empty_preferences(),
                    },
                ),
            },
    {
        if self.cache.is_none() {
            let ghost given = parsed;
            let loaded = load_preferences(parsed);
            proof {
                match given {
                    Some(f) => lemma_sanitize_idempotent(persisted_view(f)),
                    None => {},
                }
            }
            self.cache = Some(loaded);
        }
    }

    /// The cached preferences, or empty preferences when nothing has been read or written.
    pub fn get_preferences(&self) -> (r: RemoteTerminalAgentPreferencesData)
        ensures
            r@ == self.served(),
    {
        match &self.cache {
            Some(p) => copy_preferences(p),
            None => {
                let r = RemoteTerminalAgentPreferencesData {
                    default_working_directory: String::new(),
                    shortcuts: Vec::new(),
                    quick_commands: Vec::new(),
                };
                assert(r@.shortcuts =~= Seq::<ShortcutView>::empty());
                assert(r@.quick_commands =~= Seq::<QuickCommandView>::empty());
                r
            },
        }
    }

    /// The file content to write for a preferences update: the preferences sanitised,
    /// file format version 1.
    pub fn stage(preferences: RemoteTerminalAgentPreferencesData) -> (r: PersistedPreferencesFile)
        ensures
            r.version == 1,
            persisted_view(r) == sanitized_preferences(preferences@),
    {
        let s = sanitize_preferences(preferences);
        let r = PersistedPreferencesFile {
            version: 1,
            default_working_directory: s.default_working_directory,
            shortcuts: s.shortcuts,
            quick_commands: s.quick_commands,
        };
        assert(persisted_view(r) =~= s@);
        r
    }

    /// Records a file content that was written successfully; it is served from now on.
    /// Returns the preferences now served.
    pub fn commit(&mut self, written: PersistedPreferencesFile) -> (r:
        RemoteTerminalAgentPreferencesData)
        requires
            old(self).well_formed(),
        ensures
            final(self).well_formed(),
            final(self).path() == old(self).path(),
            final(self).cached() == Some(sanitized_preferences(persisted_view(written))),
            r@ == sanitized_preferences(persisted_view(written)),
    {
        let s = sanitize_preferences(
            RemoteTerminalAgentPreferencesData {
                default_working_directory: written.default_working_directory,
                shortcuts: written.shortcuts,
                quick_commands: written.quick_commands,
            },
        );
        proof {
            lemma_sanitize_idempotent(persisted_view(written));
        }
        let r = copy_preferences(&s);
        self.cache = Some(s);
        r
    }

    /// Settles a preferences update once the file write has been tried: on success the
    /// written content is served from now on and returned; when the write failed, its error
    /// is returned and the cache is left exactly as it was.
    pub fn record_write(&mut self, written: PersistedPreferencesFile, outcome: Result<(), String>) -> (r:
        Result<RemoteTerminalAgentPreferencesData, String>)
        requires
            old(self).well_formed(),
        ensures
            final(self).well_formed(),
            final(self).path() == old(self).path(),
            match outcome {
                Ok(_) => {
                    &&& final(self).cached() == Some(sanitized_preferences(persisted_view(written)))
                    &&& r matches Ok(p) && p@ == sanitized_preferences(persisted_view(written))
                },
                Err(e) => {
                    &&& final(self).cached() == old(self).cached()
                    &&& r == Err::<RemoteTerminalAgentPreferencesData, String>(e)
                },
            },
    {
        match outcome {
            Ok(()) => Ok(self.commit(written)),
            Err(e) => Err(e),
        }
    }
}

/// What a store serves after an update has been staged and committed is the update,
/// sanitised.
pub proof fn lemma_set_then_get(p: PreferencesView, written: PersistedPreferencesFile)
    requires
        persisted_view(written) == sanitized_preferences(p),
    ensures
        sanitized_preferences(persisted_view(written)) == sanitized_preferences(p),
{
    lemma_sanitize_idempotent(p);
}

} // verus!
