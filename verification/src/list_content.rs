//! The credential browser: the list of groups, the list of entries of the
//! active group, type-ahead search, and the value staged for the clipboard.

use vstd::prelude::*;
use vstd::string::StringExecFns;
use crate::contracts::TuiPwSafeErrors;
use crate::keys::{KeyCode, KeyEvent};
use crate::layout::{
    inside, lemma_inside_splittable, lemma_inside_transitive, split, splittable, Direction, Rect,
};
use crate::model::{
    copy_text, entries_in_group, entry_views, is_group, lemma_filter_push, lemma_group_names,
    text_of, Entry, EntryView, SafeModel,
};
use crate::stateful_list::{
    cursor_ok, lemma_moves_stay_in_bounds, next_index, previous_index, StatefulList,
};
use crate::text::{
    first_index, is_first_index, is_substring, lemma_first_index_found,
    lemma_first_index_missing, lemma_first_index_sound, push_char, str_contains, str_eq,
    strictly_sorted, views,
};

verus! {

/// The mark that the status line gets when a staged value has been handed
/// over.
pub const FORWARDED: char = '*';

/// The state of the browser as plain values.
pub struct BrowserState {
    /// The group names, in ascending order, each once.
    pub groups: Seq<Seq<char>>,
    /// The cursor of the group list.
    pub group_cursor: Option<int>,
    /// The titles of the entries shown, in the order of the safe.
    pub entries: Seq<Seq<char>>,
    /// The cursor of the entry list.
    pub entry_cursor: Option<int>,
    /// The name of the group whose entries are fetched.
    pub active_group: Seq<char>,
    /// The title of an entry that was selected and is not resolved yet.
    pub pending_entry: Option<Seq<char>>,
    /// The record shown in the detail pane.
    pub active_entry: Option<EntryView>,
    /// The group list has the focus; if not, the entry list has it.
    pub focus_groups: bool,
    /// The value that waits to be handed to the clipboard.
    pub staged: Option<Seq<char>>,
    /// The status line.
    pub status: Seq<char>,
    /// The characters typed for the search.
    pub search: Seq<char>,
}

/// Both cursors are valid for their lists.
pub open spec fn cursors_ok(state: BrowserState) -> bool {
    &&& cursor_ok(state.groups.len() as int, state.group_cursor)
    &&& cursor_ok(state.entries.len() as int, state.entry_cursor)
}

/// The state is one that the browser can be in: the cursors are valid, the
/// groups stand in ascending order, each once, and the record shown has a
/// title.
pub open spec fn browser_ok(state: BrowserState) -> bool {
    &&& cursors_ok(state)
    &&& strictly_sorted(state.groups)
    &&& state.active_entry is Some ==> state.active_entry->0.title is Some
}

/// The hint shown until something was copied.
pub open spec fn hint() -> Seq<char> {
    "Press <Ctrl-p> to copy password, <Ctrl-u> for username"@
}

/// The titles of those records that have one, in order.
pub open spec fn titles(records: Seq<EntryView>) -> Seq<Seq<char>> {
    records.filter(|e: EntryView| e.title is Some).map_values(|e: EntryView| e.title->0)
}

/// The first record with the title `title`, if there is one.
pub open spec fn find_titled(records: Seq<EntryView>, title: Seq<char>) -> Option<EntryView> {
    match first_index(records, |e: EntryView| e.title == Some(title)) {
        Some(at) => Some(records[at]),
        None => None,
    }
}

/// The position of the first title that holds `needle`, if there is one.
pub open spec fn first_match(entries: Seq<Seq<char>>, needle: Seq<char>) -> Option<int> {
    first_index(entries, |title: Seq<char>| is_substring(title, needle))
}

/// The state after the cursor of the focused list has moved by one item.
/// The search starts over. A move in the group list makes the group under the
/// cursor the active one; a move in the entry list leaves the title under the
/// cursor to be resolved.
pub open spec fn moved(state: BrowserState, forward: bool) -> BrowserState {
    if state.focus_groups {
        let len = state.groups.len() as int;
        let at = if forward {
            next_index(len, state.group_cursor)
        } else {
            previous_index(len, state.group_cursor)
        };
        BrowserState {
            search: Seq::empty(),
            group_cursor: Some(at),
            active_group: if 0 <= at < len {
                state.groups[at]
            } else {
                state.active_group
            },
            ..state
        }
    } else {
        let len = state.entries.len() as int;
        let at = if forward {
            next_index(len, state.entry_cursor)
        } else {
            previous_index(len, state.entry_cursor)
        };
        BrowserState {
            search: Seq::empty(),
            entry_cursor: Some(at),
            pending_entry: if 0 <= at < len {
                Some(state.entries[at])
            } else {
                state.pending_entry
            },
            ..state
        }
    }
}

/// The state after `c` was typed into the search. The cursor of the entry
/// list jumps to the first title that holds the search text; where no title
/// does, only the search text grows.
pub open spec fn searched(state: BrowserState, c: char) -> BrowserState {
    let search = state.search.push(c);
    match first_match(state.entries, search) {
        Some(at) => BrowserState {
            search,
            entry_cursor: Some(at),
            pending_entry: Some(state.entries[at]),
            ..state
        },
        None => BrowserState { search, ..state },
    }
}

/// The state after the password (or else the user name) of the record shown
/// was staged for the clipboard. Without a record shown nothing changes.
pub open spec fn copied(state: BrowserState, password: bool) -> BrowserState {
    match state.active_entry {
        Some(entry) => BrowserState {
            staged: if password {
                entry.password
            } else {
                entry.username
            },
            status: if password {
                "Password copied"@
            } else {
                "Username copied"@
            },
            ..state
        },
        None => state,
    }
}

/// The state after a key press.
pub open spec fn key_step(state: BrowserState, key: KeyEvent) -> BrowserState {
    if key.modifiers.is_control() && key.code == KeyCode::Char('p') {
        copied(state, true)
    } else if key.modifiers.is_control() && key.code == KeyCode::Char('u') {
        copied(state, false)
    } else if key.modifiers.is_none() {
        match key.code {
            KeyCode::Tab => BrowserState { focus_groups: !state.focus_groups, ..state },
            KeyCode::Down => moved(state, true),
            KeyCode::Up => moved(state, false),
            KeyCode::Char(c) => searched(state, c),
            _ => state,
        }
    } else {
        state
    }
}

/// The state after one synchronisation with the records of the safe. While
/// the group list has the focus, the entries of the active group are fetched
/// anew and the entry cursor goes to the first of them. A pending title is
/// resolved against the records of the active group and is pending no more.
/// A staged value leaves the stage, and the status line is marked.
pub open spec fn sync_step(state: BrowserState, records: Seq<EntryView>) -> BrowserState {
    let in_group = entries_in_group(records, state.active_group);
    BrowserState {
        entries: if state.focus_groups {
            titles(in_group)
        } else {
            state.entries
        },
        entry_cursor: if state.focus_groups {
            Some(0)
        } else {
            state.entry_cursor
        },
        active_entry: match state.pending_entry {
            Some(title) => match find_titled(in_group, title) {
                Some(entry) => Some(entry),
                None => state.active_entry,
            },
            None => state.active_entry,
        },
        pending_entry: None,
        staged: None,
        status: if state.staged is Some {
            state.status.push(FORWARDED)
        } else {
            state.status
        },
        ..state
    }
}

/// The browser right after it was built from the records of the safe: the
/// groups in order, the first of them active and its entries shown, the focus
/// on the groups, nothing selected.
pub open spec fn built(groups: Seq<Seq<char>>, records: Seq<EntryView>) -> BrowserState {
    BrowserState {
        groups,
        group_cursor: None,
        entries: if groups.len() > 0 {
            titles(entries_in_group(records, groups[0]))
        } else {
            Seq::empty()
        },
        entry_cursor: None,
        active_group: if groups.len() > 0 {
            groups[0]
        } else {
            Seq::empty()
        },
        pending_entry: None,
        active_entry: None,
        focus_groups: true,
        staged: None,
        status: hint(),
        search: Seq::empty(),
    }
}

/// The first synchronisation of a browser that was just built leaves the
/// entries of the first group in place and puts the cursor on the first of
/// them.
pub proof fn lemma_first_sync_keeps_entries(state: BrowserState, records: Seq<EntryView>)
    requires
        opened(state, records),
    ensures
        sync_step(state, records).entries == state.entries,
        sync_step(state, records).entry_cursor == Some(0int),
        sync_step(state, records).active_group == state.active_group,
        sync_step(state, records).groups == state.groups,
{
    if state.groups.len() == 0 {
        let none = Seq::<char>::empty();
        let pred = |e: EntryView| e.group == Some(none);
        let found = records.filter(pred);
        if found.len() > 0 {
            records.lemma_filter_pred(pred, 0);
            assert(found.contains(found[0]));
            records.lemma_filter_contains_rev(pred, found[0]);
            let j = choose|j: int| 0 <= j < records.len() && records[j] == found[0];
            assert(records[j].group == Some(none));
            assert(is_group(records, none));
            assert(state.groups.contains(none));
        }
        assert(titles(found) =~= Seq::<Seq<char>>::empty());
    }
}

/// Every key press leaves the browser in a state that it can be in.
pub proof fn lemma_keys_keep_browser_ok(state: BrowserState, key: KeyEvent)
    requires
        browser_ok(state),
    ensures
        browser_ok(key_step(state, key)),
{
    lemma_moves_stay_in_bounds(state.groups.len() as int, state.group_cursor);
    lemma_moves_stay_in_bounds(state.entries.len() as int, state.entry_cursor);
    match key.code {
        KeyCode::Char(c) => {
            lemma_first_index_sound(
                state.entries,
                |title: Seq<char>| is_substring(title, state.search.push(c)),
            );
        },
        _ => {},
    }
}

/// Every synchronisation leaves the browser in a state that it can be in.
pub proof fn lemma_sync_keeps_browser_ok(state: BrowserState, records: Seq<EntryView>)
    requires
        browser_ok(state),
    ensures
        browser_ok(sync_step(state, records)),
{
    match state.pending_entry {
        Some(title) => {
            lemma_first_index_sound(
                entries_in_group(records, state.active_group),
                |e: EntryView| e.title == Some(title),
            );
        },
        None => {},
    }
}

/// The line that shows a field under its label, if the record has the field.
pub open spec fn labelled(label: Seq<char>, field: Option<Seq<char>>) -> Seq<Seq<char>> {
    match field {
        Some(value) => seq![label + value],
        None => Seq::empty(),
    }
}

/// The lines of the detail pane for a record: title, user name and password,
/// each under its label, as far as the record has them.
pub open spec fn detail_lines(entry: EntryView) -> Seq<Seq<char>> {
    labelled("title       : "@, entry.title) + labelled("username    : "@, entry.username)
        + labelled("password    : "@, entry.password)
}

/// The detail pane: the lines of the record shown, and the status line
/// below them.
#[derive(Debug)]
pub struct DetailPane {
    pub area: Rect,
    pub lines: Vec<String>,
    pub help_area: Rect,
    pub help_text: String,
}

/// What the browser shows: the two lists with their cursors and, while a
/// record is shown, the detail pane.
#[derive(Debug)]
pub struct BrowserFrame {
    pub groups_area: Rect,
    pub groups: Vec<String>,
    pub group_cursor: Option<usize>,
    pub entries_area: Rect,
    pub entries: Vec<String>,
    pub entry_cursor: Option<usize>,
    pub detail: Option<DetailPane>,
}

/// A cursor as an integer.
pub open spec fn cursor_of(index: Option<usize>) -> Option<int> {
    match index {
        Some(i) => Some(i as int),
        None => None,
    }
}

/// The frame shows the state: both lists with their cursors, and the detail
/// pane with the lines of the record shown and the status line exactly when a
/// record is shown.
pub open spec fn shows(frame: BrowserFrame, state: BrowserState) -> bool {
    &&& views(frame.groups@) == state.groups
    &&& cursor_of(frame.group_cursor) == state.group_cursor
    &&& views(frame.entries@) == state.entries
    &&& cursor_of(frame.entry_cursor) == state.entry_cursor
    &&& match frame.detail {
        Some(pane) => state.active_entry is Some && views(pane.lines@) == detail_lines(
            state.active_entry->0,
        ) && pane.help_text@ == state.status,
        None => true,
    }
}

/// Shares of the screen that the group list, the entry list and the detail
/// pane take, in hundredths of its width.
pub open spec fn pane_shares() -> Seq<u16> {
    seq![20u16, 20u16, 60u16]
}

/// Shares of the detail pane that the record and the status line take, in
/// hundredths of its height.
pub open spec fn detail_shares() -> Seq<u16> {
    seq![80u16, 20u16]
}

/// Shares of the screen that the group list, the entry list and the detail
/// pane take, in hundredths of its width.
pub fn browser_shares() -> (shares: Vec<u16>)
    ensures
        shares@ == pane_shares(),
{
    let mut shares: Vec<u16> = Vec::new();
    shares.push(20);
    shares.push(20);
    shares.push(60);
    assert(shares@ =~= pane_shares());
    shares
}

/// Shares of the detail pane that the record and the status line take, in
/// hundredths of its height.
pub fn record_shares() -> (shares: Vec<u16>)
    ensures
        shares@ == detail_shares(),
{
    let mut shares: Vec<u16> = Vec::new();
    shares.push(80);
    shares.push(20);
    assert(shares@ =~= detail_shares());
    shares
}

/// Divides the screen from left to right, by `browser_shares`, into the
/// panes of the group list, the entry list and the details, all within the
/// screen. An area that cannot be divided gives nothing.
pub fn panes(area: Rect) -> (found: Option<(Rect, Rect, Rect)>)
    ensures
        found is Some == splittable(Direction::Horizontal, pane_shares(), area),
        match found {
            Some((groups_area, entries_area, detail_area)) => {
                &&& inside(groups_area, area)
                &&& inside(entries_area, area)
                &&& inside(detail_area, area)
            },
            None => true,
        },
{
    match split(Direction::Horizontal, &browser_shares(), area) {
        Some(columns) => Some((columns[0], columns[1], columns[2])),
        None => None,
    }
}

/// Divides the detail pane from top to bottom, by `record_shares`, into the
/// pane of the record and the pane of the status line below it, both within
/// the detail pane. An area that cannot be divided gives nothing.
pub fn detail_panes(area: Rect) -> (found: Option<(Rect, Rect)>)
    ensures
        found is Some == splittable(Direction::Vertical, detail_shares(), area),
        match found {
            Some((record_area, status_area)) => inside(record_area, area) && inside(
                status_area,
                area,
            ),
            None => true,
        },
{
    match split(Direction::Vertical, &record_shares(), area) {
        Some(rows) => Some((rows[0], rows[1])),
        None => None,
    }
}

/// The screen has room for the browser: it can be divided into the three
/// panes and, while a record is shown, into the record and the status line.
pub open spec fn fits(state: BrowserState, area: Rect) -> bool {
    &&& splittable(Direction::Horizontal, pane_shares(), area)
    &&& state.active_entry is Some ==> splittable(Direction::Vertical, detail_shares(), area)
}

/// Every pane of the frame lies within the area.
pub open spec fn frame_inside(frame: BrowserFrame, area: Rect) -> bool {
    &&& inside(frame.groups_area, area)
    &&& inside(frame.entries_area, area)
    &&& match frame.detail {
        Some(pane) => inside(pane.area, area) && inside(pane.help_area, area),
        None => true,
    }
}

/// A search text that no title holds leaves the cursor of the entry list and
/// the pending title as they were; the search text keeps what was typed.
pub proof fn lemma_search_without_match(state: BrowserState, c: char)
    requires
        forall|i: int|
            0 <= i < state.entries.len() ==> !is_substring(
                #[trigger] state.entries[i],
                state.search.push(c),
            ),
    ensures
        searched(state, c) == (BrowserState { search: state.search.push(c), ..state }),
{
    lemma_first_index_missing(
        state.entries,
        |title: Seq<char>| is_substring(title, state.search.push(c)),
    );
}

/// A search text that some title holds puts the cursor on the first such
/// title and leaves that title to be resolved.
pub proof fn lemma_search_selects_first_match(state: BrowserState, c: char, at: int)
    requires
        0 <= at < state.entries.len(),
        is_substring(state.entries[at], state.search.push(c)),
        forall|i: int|
            0 <= i < at ==> !is_substring(#[trigger] state.entries[i], state.search.push(c)),
    ensures
        searched(state, c).entry_cursor == Some(at),
        searched(state, c).pending_entry == Some(state.entries[at]),
        searched(state, c).search == state.search.push(c),
        cursors_ok(state) ==> cursors_ok(searched(state, c)),
{
    let pred = |title: Seq<char>| is_substring(title, state.search.push(c));
    assert(is_first_index(state.entries, pred, at));
    lemma_first_index_found(state.entries, pred, at);
}

/// A move of the cursor starts the search over.
pub proof fn lemma_moves_clear_search(state: BrowserState, forward: bool)
    ensures
        moved(state, forward).search == Seq::<char>::empty(),
{
}

/// The value staged for the clipboard leaves the stage with the next
/// synchronisation, whatever the records are.
pub proof fn lemma_sync_clears_stage(state: BrowserState, records: Seq<EntryView>)
    ensures
        sync_step(state, records).staged is None,
        sync_step(state, records).pending_entry is None,
        sync_step(sync_step(state, records), records).status == sync_step(state, records).status,
{
}

/// Adds the line that shows `field` under `label`, if the field is there.
fn push_labelled(lines: &mut Vec<String>, label: &str, field: &Option<String>)
    ensures
        views(final(lines)@) == views(old(lines)@) + labelled(label@, text_of(*field)),
{
    match field {
        Some(value) => {
            lines.push(String::from_str(label).concat(value.as_str()));
            assert(views(lines@) =~= views(old(lines)@) + labelled(label@, text_of(*field)));
        },
        None => {
            assert(views(lines@) =~= views(old(lines)@) + labelled(label@, text_of(*field)));
        },
    }
}

/// `state` is the browser as it is built from `records`: the groups of the
/// records in ascending order, each once, and the rest as `built` says.
pub open spec fn opened(state: BrowserState, records: Seq<EntryView>) -> bool {
    &&& state == built(state.groups, records)
    &&& strictly_sorted(state.groups)
    &&& forall|name: Seq<char>| state.groups.contains(name) <==> is_group(records, name)
}

/// The titles of those records that have one, in order.
pub fn titles_of(records: &Vec<Entry>) -> (found: Vec<String>)
    ensures
        views(found@) == titles(entry_views(records@)),
{
    let ghost has_title = |e: EntryView| e.title is Some;
    let ghost all = entry_views(records@);
    let mut found: Vec<String> = Vec::new();
    let mut i: usize = 0;
    assert(all.take(0) =~= Seq::<EntryView>::empty());
    assert(views(found@) =~= titles(all.take(0)));
    while i < records.len()
        invariant
            i <= records.len(),
            all == entry_views(records@),
            views(found@) == titles(all.take(i as int)),
        decreases records.len() - i,
    {
        let ghost before = views(found@);
        let ghost seen = all.take(i as int);
        proof {
            lemma_filter_push(seen, all[i as int], |e: EntryView| e.title is Some);
            assert(seen.push(all[i as int]) =~= all.take(i + 1));
        }
        match &records[i].title {
            Some(title) => {
                found.push(title.clone());
                assert(views(found@) =~= before.push(title@));
                assert(titles(all.take(i + 1)) =~= titles(seen).push(title@));
            },
            None => {},
        }
        i += 1;
    }
    assert(all.take(i as int) =~= all);
    found
}

/// The first record with the title `title`, if there is one.
pub fn find_record<'a>(records: &'a Vec<Entry>, title: &str) -> (found: Option<&'a Entry>)
    ensures
        match found {
            Some(entry) => find_titled(entry_views(records@), title@) == Some(entry@),
            None => find_titled(entry_views(records@), title@) is None,
        },
{
    let ghost all = entry_views(records@);
    let ghost pred = |e: EntryView| e.title == Some(title@);
    let mut i: usize = 0;
    while i < records.len()
        invariant
            i <= records.len(),
            all == entry_views(records@),
            pred == (|e: EntryView| e.title == Some(title@)),
            forall|k: int| 0 <= k < i ==> !pred(all[k]),
        decreases records.len() - i,
    {
        let hit = match &records[i].title {
            Some(t) => str_eq(t.as_str(), title),
            None => false,
        };
        assert(hit == pred(all[i as int]));
        if hit {
            proof {
                assert(is_first_index(all, pred, i as int));
                lemma_first_index_found(all, pred, i as int);
            }
            return Some(&records[i]);
        }
        i += 1;
    }
    proof {
        lemma_first_index_missing(all, pred);
    }
    None
}

/// The credential browser.
pub struct ContentList {
    groups: StatefulList<String>,
    entries: StatefulList<String>,
    active_group_name: String,
    active_entry_name: Option<String>,
    active_entry: Option<Entry>,
    select_group: bool,
    selection: Option<String>,
    help_text: String,
    search_text: String,
}

impl View for ContentList {
    type V = BrowserState;

    closed spec fn view(&self) -> BrowserState {
        BrowserState {
            groups: views(self.groups.items()),
            group_cursor: self.groups.cursor(),
            entries: views(self.entries.items()),
            entry_cursor: self.entries.cursor(),
            active_group: self.active_group_name@,
            pending_entry: text_of(self.active_entry_name),
            active_entry: match self.active_entry {
                Some(entry) => Some(entry@),
                None => None,
            },
            focus_groups: self.select_group,
            staged: text_of(self.selection),
            status: self.help_text@,
            search: self.search_text@,
        }
    }
}

impl ContentList {
    /// The browser is in a state that it can be in.
    pub open spec fn wf(&self) -> bool {
        browser_ok(self@)
    }

    /// Takes one key press.
    pub fn capture_key(&mut self, key: KeyEvent)
        requires
            old(self).wf(),
        ensures
            final(self).wf(),
            final(self)@ == key_step(old(self)@, key),
    {
        if key.modifiers.held_control_only() && key.code == KeyCode::Char('p') {
            self.stage(true);
        } else if key.modifiers.held_control_only() && key.code == KeyCode::Char('u') {
            self.stage(false);
        } else if key.modifiers.held_none() {
            match key.code {
                KeyCode::Tab => {
                    self.select_group = !self.select_group;
                },
                KeyCode::Down => {
                    self.step(true);
                },
                KeyCode::Up => {
                    self.step(false);
                },
                KeyCode::Char(c) => {
                    self.search(c);
                },
                _ => {},
            }
        }
    }

    /// Stages the password (or else the user name) of the record shown.
    fn stage(&mut self, password: bool)
        requires
            old(self).wf(),
        ensures
            final(self).wf(),
            final(self)@ == copied(old(self)@, password),
    {
        match &self.active_entry {
            Some(entry) => {
                if password {
                    self.selection = copy_text(&entry.password);
                    self.help_text = String::from_str("Password copied");
                } else {
                    self.selection = copy_text(&entry.username);
                    self.help_text = String::from_str("Username copied");
                }
            },
            None => {},
        }
    }

    /// Moves the cursor of the focused list by one item.
    fn step(&mut self, forward: bool)
        requires
            old(self).wf(),
        ensures
            final(self).wf(),
            final(self)@ == moved(old(self)@, forward),
    {
        self.search_text = String::new();
        if self.select_group {
            if forward {
                self.groups.next();
            } else {
                self.groups.previous();
            }
            if let Some(at) = self.groups.selected() {
                if at < self.groups.len() {
                    self.active_group_name = self.groups.get(at).clone();
                }
            }
        } else {
            if forward {
                self.entries.next();
            } else {
                self.entries.previous();
            }
            if let Some(at) = self.entries.selected() {
                if at < self.entries.len() {
                    self.active_entry_name = Some(self.entries.get(at).clone());
                }
            }
        }
    }

    /// Adds `c` to the search text and jumps to the first title that holds
    /// it.
    fn search(&mut self, c: char)
        requires
            old(self).wf(),
        ensures
            final(self).wf(),
            final(self)@ == searched(old(self)@, c),
    {
        push_char(&mut self.search_text, c);
        let ghost titles = views(self.entries.items());
        let ghost needle = self.search_text@;
        let ghost pred = |title: Seq<char>| is_substring(title, needle);
        let mut at: usize = 0;
        let mut hit: Option<usize> = None;
        while at < self.entries.len()
            invariant_except_break
                hit is None,
            invariant
                at <= self.entries.items().len(),
                titles == views(self.entries.items()),
                needle == self.search_text@,
                pred == (|title: Seq<char>| is_substring(title, needle)),
                forall|k: int| 0 <= k < at ==> !pred(titles[k]),
            ensures
                match hit {
                    Some(i) => i < self.entries.items().len() && is_first_index(
                        titles,
                        pred,
                        i as int,
                    ),
                    None => forall|k: int| 0 <= k < titles.len() ==> !pred(titles[k]),
                },
            decreases self.entries.items().len() - at,
        {
            if str_contains(self.entries.get(at).as_str(), self.search_text.as_str()) {
                assert(pred(titles[at as int]));
                hit = Some(at);
                break;
            }
            assert(!pred(titles[at as int]));
            at += 1;
        }
        match hit {
            Some(i) => {
                proof {
                    lemma_first_index_found(titles, pred, i as int);
                }
                self.entries.select(i);
                self.active_entry_name = Some(self.entries.get(i).clone());
            },
            None => {
                proof {
                    lemma_first_index_missing(titles, pred);
                }
            },
        }
    }

    /// Brings the browser in line with the records of the safe, and hands
    /// out the value that was staged for the clipboard, if there is one.
    pub fn update_model(&mut self, model: &SafeModel) -> (forward: Option<String>)
        requires
            old(self).wf(),
        ensures
            final(self).wf(),
            final(self)@ == sync_step(old(self)@, model@),
            text_of(forward) == old(self)@.staged,
    {
        let in_group = model.by_group_name(self.active_group_name.as_str());
        proof {
            lemma_sync_keeps_browser_ok(self@, model@);
        }
        if self.select_group {
            self.entries.reset(titles_of(&in_group));
        }
        let pending = self.active_entry_name.take();
        if let Some(name) = pending {
            if let Some(record) = find_record(&in_group, name.as_str()) {
                self.active_entry = Some(record.duplicate());
            }
        }
        let forward = self.selection.take();
        if forward.is_some() {
            push_char(&mut self.help_text, FORWARDED);
        }
        forward
    }

    /// The frame with the panes given. The detail pane is part of it where a
    /// record is shown and `detail_areas` gives the place for it and for the
    /// status line.
    pub fn frame_in(
        &self,
        groups_area: Rect,
        entries_area: Rect,
        detail_areas: Option<(Rect, Rect)>,
    ) -> (frame: BrowserFrame)
        ensures
            shows(frame, self@),
            frame.groups_area == groups_area,
            frame.entries_area == entries_area,
            frame.detail is Some == (detail_areas is Some && self@.active_entry is Some),
            match (frame.detail, detail_areas) {
                (Some(pane), Some((area, help_area))) => pane.area == area && pane.help_area
                    == help_area,
                _ => true,
            },
    {
        let detail = match (&self.active_entry, detail_areas) {
            (Some(entry), Some((area, help_area))) => {
                let mut lines: Vec<String> = Vec::new();
                assert(views(lines@) =~= Seq::<Seq<char>>::empty());
                push_labelled(&mut lines, "title       : ", &entry.title);
                push_labelled(&mut lines, "username    : ", &entry.username);
                push_labelled(&mut lines, "password    : ", &entry.password);
                assert(views(lines@) =~= detail_lines(entry@));
                Some(DetailPane { area, lines, help_area, help_text: self.help_text.clone() })
            },
            _ => None,
        };
        BrowserFrame {
            groups_area,
            groups: self.groups.names(),
            group_cursor: self.groups.selected(),
            entries_area,
            entries: self.entries.names(),
            entry_cursor: self.entries.selected(),
            detail,
        }
    }

    /// The list of groups.
    pub fn groups(&self) -> (list: &StatefulList<String>)
        ensures
            views(list.items()) == self@.groups,
            list.cursor() == self@.group_cursor,
    {
        &self.groups
    }

    /// The list of entries.
    pub fn entries(&self) -> (list: &StatefulList<String>)
        ensures
            views(list.items()) == self@.entries,
            list.cursor() == self@.entry_cursor,
    {
        &self.entries
    }

    /// The name of the group whose entries are fetched.
    pub fn active_group_name(&self) -> (name: &String)
        ensures
            name@ == self@.active_group,
    {
        &self.active_group_name
    }

    /// The record shown in the detail pane, if there is one.
    pub fn active_entry(&self) -> (entry: &Option<Entry>)
        ensures
            match *entry {
                Some(e) => self@.active_entry == Some(e@),
                None => self@.active_entry is None,
            },
    {
        &self.active_entry
    }

    /// Tells whether the group list has the focus.
    pub fn is_group_focused(&self) -> (focused: bool)
        ensures
            focused == self@.focus_groups,
    {
        self.select_group
    }

    /// The status line.
    pub fn status(&self) -> (text: &String)
        ensures
            text@ == self@.status,
    {
        &self.help_text
    }

    /// The characters typed for the search.
    pub fn search_text(&self) -> (text: &String)
        ensures
            text@ == self@.search,
    {
        &self.search_text
    }

    /// The value that waits to be handed to the clipboard, if there is one.
    pub fn staged(&self) -> (text: &Option<String>)
        ensures
            text_of(*text) == self@.staged,
    {
        &self.selection
    }

    /// Tells whether a record is shown in the detail pane.
    pub fn has_active_entry(&self) -> (shown: bool)
        ensures
            shown == self@.active_entry is Some,
    {
        self.active_entry.is_some()
    }

    /// The frame for a screen of the given area: the group list, the entry
    /// list and the detail pane side by side, the detail pane divided into
    /// the record and the status line while a record is shown, all within the
    /// screen. The frame is there whenever the screen has room for the
    /// browser, and it is not where the screen cannot be divided from left to
    /// right.
    pub fn draw(&self, area: Rect) -> (frame: Option<BrowserFrame>)
        ensures
            frame is Some ==> {
                &&& shows(frame->0, self@)
                &&& frame->0.detail is Some == self@.active_entry is Some
                &&& frame_inside(frame->0, area)
            },
            !splittable(Direction::Horizontal, pane_shares(), area) ==> frame is None,
            fits(self@, area) ==> frame is Some,
    {
        let (groups_area, entries_area, detail_area) = match panes(area) {
            Some(found) => found,
            None => {
                return None;
            },
        };
        if !self.has_active_entry() {
            return Some(self.frame_in(groups_area, entries_area, None));
        }
        proof {
            if splittable(Direction::Vertical, detail_shares(), area) {
                lemma_inside_splittable(Direction::Vertical, detail_shares(), detail_area, area);
            }
        }
        match detail_panes(detail_area) {
            Some((record_area, status_area)) => {
                proof {
                    lemma_inside_transitive(record_area, detail_area, area);
                    lemma_inside_transitive(status_area, detail_area, area);
                }
                Some(self.frame_in(groups_area, entries_area, Some((record_area, status_area))))
            },
            None => None,
        }
    }

    /// Puts the words of a failure on the status line.
    pub fn report(&mut self, error: &TuiPwSafeErrors)
        ensures
            final(self)@ == (BrowserState { status: error.message_spec(), ..old(self)@ }),
    {
        self.help_text = error.message();
    }

    /// The browser never asks to be replaced.
    pub fn is_done(&self) -> (done: bool)
        ensures
            !done,
    {
        false
    }

    /// Builds the browser from the records of the safe.
    pub fn new(model: &SafeModel) -> (browser: ContentList)
        ensures
            browser.wf(),
            opened(browser@, model@),
    {
        let groups = StatefulList::with_hs(model.groups());
        proof {
            lemma_group_names(model@);
        }
        let active_group_name = if groups.len() > 0 {
            assert(views(groups.items())[0] == groups.items()[0]@);
            groups.get(0).clone()
        } else {
            String::new()
        };
        let entries: Vec<String> = if groups.len() > 0 {
            titles_of(&model.by_group_name(active_group_name.as_str()))
        } else {
            let none: Vec<String> = Vec::new();
            assert(views(none@) =~= Seq::<Seq<char>>::empty());
            none
        };
        let browser = ContentList {
            search_text: String::new(),
            help_text: String::from_str("Press <Ctrl-p> to copy password, <Ctrl-u> for username"),
            selection: None,
            groups,
            select_group: true,
            active_group_name,
            active_entry_name: None,
            active_entry: None,
            entries: StatefulList::with_vec(entries),
        };
        proof {
            let expected = built(browser@.groups, model@);
            assert(browser@.entries == expected.entries);
            assert(browser@.active_group =~= expected.active_group);
            assert(browser@.search =~= expected.search);
            assert(browser@.status == expected.status);
        }
        browser
    }
}

} // verus!
