use vstd::prelude::*;

verus! {

use vstd::string::StrSliceExecFns;
use vstd::string::StringExecFns;

use crate::error::AppError;
use crate::file_processing;
use crate::file_processing::PathState;

// ---------------------------------------------------------------------------
// Keys
// ---------------------------------------------------------------------------

/// A key stroke the editing widgets react to. Terminal-specific key codes are
/// converted into this alphabet at the process boundary.
#[derive(Clone, Copy, PartialEq, Eq, Structural, Debug)]
pub enum Key {
    Backspace,
    /// A printable character.
    Char(char),
    Delete,
    Down,
    Enter,
    Up,
    Esc,
    /// Any key the widgets ignore.
    Other,
}

// ---------------------------------------------------------------------------
// List cursor
// ---------------------------------------------------------------------------

/// The cursor of a navigable list: the index of the selected entry, if any.
#[derive(Debug)]
pub struct ListState {
    pub selected: Option<usize>,
}

impl ListState {
    /// The selected index, if any.
    pub fn selected(&self) -> (r: Option<usize>)
        ensures
            r == self.selected,
    {
        self.selected
    }

    /// Moves the cursor.
    pub fn select(&mut self, index: Option<usize>)
        ensures
            final(self).selected == index,
    {
        self.selected = index;
    }
}

impl Default for ListState {
    fn default() -> (r: ListState)
        ensures
            r.selected is None,
    {
        ListState { selected: None }
    }
}

// ---------------------------------------------------------------------------
// ScrollList
// ---------------------------------------------------------------------------

/// A heading, a list of options, and a cursor scrolled with wraparound.
#[derive(Debug)]
pub struct ScrollList {
    pub heading: String,
    pub options: Vec<String>,
    pub state: ListState,
}

impl ScrollList {
    /// The cursor, when set, stays in range.
    pub open spec fn wf(&self) -> bool {
        self.state.selected matches Some(i) ==> i < self.options@.len()
    }

    pub fn new(heading: String, options: Vec<String>) -> (r: ScrollList)
        ensures
            r.heading == heading,
            r.options == options,
            r.state.selected is None,
            r.wf(),
    {
        ScrollList { heading, options, state: ListState::default() }
    }

    /// Moves the cursor one entry down, wrapping to the top; an unset cursor
    /// lands on the first entry.
    pub fn next(&mut self)
        requires
            old(self).wf(),
            old(self).options@.len() > 0,
        ensures
            final(self).heading == old(self).heading,
            final(self).options == old(self).options,
            final(self).wf(),
            final(self).state.selected == Some(
                match old(self).state.selected {
                    Some(i) => ((i + 1) % (old(self).options@.len() as int)) as usize,
                    None => 0usize,
                },
            ),
    {
        let len = self.options.len();
        let i: usize = match self.state.selected() {
            Some(i) => {
                assert(i < len);
                (i + 1) % len
            },
            None => 0,
        };
        self.state.select(Some(i));
    }

    /// Moves the cursor one entry up, wrapping to the bottom; an unset cursor
    /// lands on the first entry.
    pub fn previous(&mut self)
        requires
            old(self).wf(),
            old(self).options@.len() > 0,
        ensures
            final(self).heading == old(self).heading,
            final(self).options == old(self).options,
            final(self).wf(),
            final(self).state.selected == Some(
                match old(self).state.selected {
                    Some(i) => if i == 0 {
                        (old(self).options@.len() - 1) as usize
                    } else {
                        (i - 1) as usize
                    },
                    None => 0usize,
                },
            ),
    {
        let len = self.options.len();
        let i: usize = match self.state.selected() {
            Some(i) => {
                assert(i < len);
                if i == 0 {
                    len - 1
                } else {
                    i - 1
                }
            },
            None => 0,
        };
        self.state.select(Some(i));
    }
}

// ---------------------------------------------------------------------------
// Decimal rendering
// ---------------------------------------------------------------------------

/// The decimal digit character for `d`.
pub open spec fn spec_digit_char(d: int) -> char {
    ((48 + d) as u8) as char
}

/// The decimal numeral of `n`, most significant digit first.
pub open spec fn spec_dec_digits(n: int) -> Seq<char>
    decreases n,
{
    if n < 10 {
        seq![spec_digit_char(n)]
    } else {
        spec_dec_digits(n / 10) + seq![spec_digit_char(n % 10)]
    }
}

/// Renders a count as its decimal numeral.
fn usize_to_string(n: usize) -> (r: String)
    ensures
        r@ == spec_dec_digits(n as int),
{
    let mut digits: Vec<char> = Vec::new();
    let mut m = n;
    let mut more = true;
    while more
        invariant
            more ==> spec_dec_digits(n as int) == spec_dec_digits(m as int)
                + digits@.reverse(),
            !more ==> spec_dec_digits(n as int) == digits@.reverse(),
        decreases m, (if more { 1int } else { 0int }),
    {
        let d = m % 10;
        let c = (48 + d as u8) as char;
        assert(c == spec_digit_char(d as int));
        let ghost prev = digits@;
        digits.push(c);
        assert(digits@.reverse() =~= seq![c] + prev.reverse());
        if m < 10 {
            more = false;
            assert(spec_dec_digits(m as int) == seq![spec_digit_char(m as int)]);
        } else {
            m = m / 10;
        }
    }
    let mut s = String::new();
    let len = digits.len();
    let mut i = len;
    while i > 0
        invariant
            i <= len,
            len == digits@.len(),
            s@ == digits@.reverse().subrange(0, (len - i) as int),
        decreases i,
    {
        i = i - 1;
        s.push(digits[i]);
        assert(s@ =~= digits@.reverse().subrange(0, (len - i) as int));
    }
    assert(s@ =~= digits@.reverse());
    s
}

// ---------------------------------------------------------------------------
// StyledFilePath
// ---------------------------------------------------------------------------

/// One user-entered path: its raw text, a derived display string, and its
/// classification state.
#[derive(Debug)]
pub struct StyledFilePath {
    pub path: String,
    pub display_path: String,
    pub state: PathState,
}

/// The display string derived from a raw path and its classification: a check
/// mark for files and directories (directories also carry their accessible
/// item count), a cross mark for invalid paths, and the bare text for
/// unchecked ones.
pub open spec fn spec_styled(path: Seq<char>, state: PathState) -> Seq<char> {
    match state {
        PathState::Directory(count) => if count == 1 {
            "\u{2714}  "@ + path + " | 1 Accessible item"@
        } else {
            "\u{2714}  "@ + path + " | "@ + spec_dec_digits(count as int) + " Accessible items"@
        },
        PathState::File => "\u{2714}  "@ + path,
        PathState::Invalid => "\u{274c} "@ + path,
        PathState::Unchecked => path,
    }
}

/// The raw text after one key stroke: backspace drops the last character, a
/// typed character is appended (the '\u{e2}' drag-and-drop artifact stands
/// for a backslash), and any other key leaves the text alone.
pub open spec fn spec_edited_path(path: Seq<char>, key: Key) -> Seq<char> {
    match key {
        Key::Backspace => if path.len() > 0 {
            path.drop_last()
        } else {
            path
        },
        Key::Char(c) => path.push(if c == '\u{e2}' {
            '\\'
        } else {
            c
        }),
        _ => path,
    }
}

impl StyledFilePath {
    /// A fresh entry: raw and display text both the given path, unclassified.
    pub fn new(path: &str) -> (r: StyledFilePath)
        ensures
            r.path@ == path@,
            r.display_path@ == path@,
            r.state == PathState::Unchecked,
    {
        StyledFilePath {
            path: path.to_owned(),
            display_path: path.to_owned(),
            state: PathState::Unchecked,
        }
    }

    /// A hook point for cosmetic deselection; no state change in the base
    /// design.
    pub fn deselect(&mut self)
        ensures
            *final(self) == *old(self),
    {
    }

    /// Applies one character-level edit to the raw text, resets the entry to
    /// `Unchecked`, and redraws it as selected.
    pub fn edit(&mut self, key: &Key)
        ensures
            final(self).path@ == spec_edited_path(old(self).path@, *key),
            final(self).state == PathState::Unchecked,
            final(self).display_path@ == "   "@ + final(self).path@,
    {
        match key {
            Key::Backspace => {
                self.path.pop();
            },
            Key::Char(character) => {
                let sanitized_character = if *character == '\u{e2}' {
                    '\\'
                } else {
                    *character
                };
                self.path.push(sanitized_character);
            },
            _ => (),
        }
        if self.state != PathState::Unchecked {
            self.state = PathState::Unchecked;
        }
        self.select();
    }

    /// Redraws the entry as selected: padding spaces stand in for the status
    /// glyphs of the other entries.
    pub fn select(&mut self)
        ensures
            final(self).path == old(self).path,
            final(self).state == old(self).state,
            final(self).display_path@ == "   "@ + old(self).path@,
    {
        let mut display = String::from_str("   ");
        display.append(self.path.as_str());
        self.display_path = display;
    }

    /// Derives the display string from the raw text and the current state.
    pub fn style(&mut self)
        ensures
            final(self).path == old(self).path,
            final(self).state == old(self).state,
            final(self).display_path@ == spec_styled(old(self).path@, old(self).state),
    {
        let mut display: String;
        match self.state {
            PathState::Directory(count) => {
                display = String::from_str("\u{2714}  ");
                display.append(self.path.as_str());
                if count == 1 {
                    display.append(" | 1 Accessible item");
                } else {
                    display.append(" | ");
                    let numeral = usize_to_string(count);
                    display.append(numeral.as_str());
                    display.append(" Accessible items");
                }
            },
            PathState::File => {
                display = String::from_str("\u{2714}  ");
                display.append(self.path.as_str());
            },
            PathState::Invalid => {
                display = String::from_str("\u{274c} ");
                display.append(self.path.as_str());
            },
            PathState::Unchecked => {
                display = self.path.clone();
            },
        }
        self.display_path = display;
    }

    /// Classifies the raw text against the filesystem; a classifier failure
    /// demotes the entry to `Invalid` instead of failing the edit.
    pub fn validate(&mut self)
        ensures
            final(self).path == old(self).path,
            final(self).display_path == old(self).display_path,
            !(final(self).state is Unchecked),
            file_processing::spec_all_whitespace(old(self).path@) ==> final(self).state
                == PathState::Invalid,
    {
        self.state = match file_processing::check_path(self.path.as_str()) {
            Ok(state) => state,
            Err(_) => PathState::Invalid,
        }
    }
}

// ---------------------------------------------------------------------------
// StyledPathList
// ---------------------------------------------------------------------------

/// An ordered, navigable collection of path entries with a single cursor,
/// re-parsing entries as the user navigates away from them.
#[derive(Debug)]
pub struct StyledPathList {
    pub heading: String,
    pub paths: Vec<StyledFilePath>,
    pub state: ListState,
}

/// The fragments that replace a re-parsed entry: the parsed pieces of its
/// text, or one empty fragment when the text yields none.
pub open spec fn spec_fragments_of(text: Seq<char>) -> Seq<Seq<char>> {
    let parsed = file_processing::spec_parse_paths(text);
    if parsed.len() == 0 {
        seq![Seq::<char>::empty()]
    } else {
        parsed
    }
}

/// `after` is `before` with the entry at `i` replaced in place by the
/// classified, styled fragments of its text; everything else, the heading and
/// the cursor included, stands untouched.
pub open spec fn spec_reparsed_at(before: StyledPathList, after: StyledPathList, i: int) -> bool {
    let frags = spec_fragments_of(before.paths@[i].path@);
    &&& after.heading == before.heading
    &&& after.state == before.state
    &&& after.paths@.len() == before.paths@.len() + frags.len() - 1
    &&& (forall|k: int| 0 <= k < i ==> after.paths@[k] == before.paths@[k])
    &&& (forall|k: int|
        i + frags.len() <= k < after.paths@.len() ==> after.paths@[k] == before.paths@[k + 1
            - frags.len()])
    &&& (forall|k: int|
        0 <= k < frags.len() ==> {
            let e = #[trigger] after.paths@[i + k];
            &&& e.path@ == frags[k]
            &&& !(e.state is Unchecked)
            &&& e.display_path@ == spec_styled(frags[k], e.state)
            &&& (file_processing::spec_all_whitespace(frags[k]) ==> e.state
                == PathState::Invalid)
        })
}

/// `after` is `before` with only entry `j` redrawn in the selected
/// presentation; every raw text and state stands untouched.
pub open spec fn spec_display_selected(
    before: Seq<StyledFilePath>,
    after: Seq<StyledFilePath>,
    j: int,
) -> bool {
    &&& after.len() == before.len()
    &&& (forall|k: int| 0 <= k < after.len() && k != j ==> after[k] == before[k])
    &&& after[j].path@ == before[j].path@
    &&& after[j].state == before[j].state
    &&& after[j].display_path@ == "   "@ + before[j].path@
}

/// The cursor is set and both the selected entry and its predecessor (with
/// wraparound) are classified: navigating from here re-parses nothing.
pub open spec fn spec_settled(l: StyledPathList) -> bool {
    &&& l.state.selected matches Some(c)
    &&& (c as int) < l.paths@.len()
    &&& !(l.paths@[c as int].state is Unchecked)
    &&& !(l.paths@[if c == 0 {
        l.paths@.len() - 1
    } else {
        c as int - 1
    }].state is Unchecked)
}

impl StyledPathList {
    /// Structural well-formedness: the list is never empty, and the cursor,
    /// when set, stays in range.
    pub open spec fn wf(&self) -> bool {
        &&& self.paths@.len() >= 1
        &&& (self.state.selected matches Some(i) ==> (i as int) < self.paths@.len())
    }

    /// The classification states of the entries, in order.
    pub open spec fn spec_states(&self) -> Seq<PathState> {
        self.paths@.map(|k: int, p: StyledFilePath| p.state)
    }

    /// The raw path texts of the entries, in order.
    pub open spec fn spec_raws(&self) -> Seq<Seq<char>> {
        self.paths@.map(|k: int, p: StyledFilePath| p.path@)
    }

    /// A list over the given entries with an unset cursor; a list handed no
    /// entries starts with one empty entry, as the list is never empty.
    pub fn new(heading: String, paths: Vec<StyledFilePath>) -> (r: StyledPathList)
        ensures
            r.heading == heading,
            r.state.selected is None,
            paths@.len() > 0 ==> r.paths == paths,
            paths@.len() == 0 ==> (r.paths@.len() == 1 && r.paths@[0].path@
                == Seq::<char>::empty() && r.paths@[0].display_path@ == Seq::<char>::empty()
                && r.paths@[0].state == PathState::Unchecked),
            r.wf(),
    {
        let mut paths = paths;
        if paths.len() == 0 {
            let entry = StyledFilePath::new("");
            proof {
                reveal_strlit("");
            }
            assert(entry.path@ =~= Seq::<char>::empty());
            assert(entry.display_path@ =~= Seq::<char>::empty());
            paths.push(entry);
        }
        StyledPathList { heading, paths, state: ListState::default() }
    }

    /// Inserts a styled empty entry at `index`, shifting later entries back.
    pub fn insert_empty_element(&mut self, index: usize)
        requires
            index <= old(self).paths@.len(),
        ensures
            final(self).heading == old(self).heading,
            final(self).state == old(self).state,
            final(self).paths@.len() == old(self).paths@.len() + 1,
            forall|k: int| 0 <= k < index ==> final(self).paths@[k] == old(self).paths@[k],
            forall|k: int|
                index < k < final(self).paths@.len() ==> final(self).paths@[k] == old(
                    self,
                ).paths@[k - 1],
            final(self).paths@[index as int].path@ == Seq::<char>::empty(),
            final(self).paths@[index as int].state == PathState::Unchecked,
            final(self).paths@[index as int].display_path@ == Seq::<char>::empty(),
    {
        let mut new_element = StyledFilePath::new("");
        new_element.style();
        proof {
            reveal_strlit("");
        }
        assert(new_element.path@ =~= Seq::<char>::empty());
        assert(new_element.display_path@ =~= Seq::<char>::empty());
        self.paths.insert(index, new_element);
    }

    /// The display strings of all entries, in order.
    pub fn get_styled_paths(&self) -> (r: Vec<String>)
        ensures
            r.deep_view() == self.paths@.map(|k: int, p: StyledFilePath| p.display_path@),
    {
        let mut out: Vec<String> = Vec::new();
        let mut i: usize = 0;
        let len = self.paths.len();
        while i < len
            invariant
                i <= len,
                len == self.paths@.len(),
                out@.len() == i,
                forall|k: int| 0 <= k < i ==> out@[k]@ == self.paths@[k].display_path@,
            decreases len - i,
        {
            out.push(self.paths[i].display_path.clone());
            i = i + 1;
        }
        assert(out.deep_view() =~= self.paths@.map(|k: int, p: StyledFilePath| p.display_path@));
        out
    }

    /// An independent copy of the list, as exported by value to another
    /// worker.
    pub fn duplicate(&self) -> (r: StyledPathList)
        ensures
            r.heading == self.heading,
            r.paths@ == self.paths@,
            r.state == self.state,
    {
        let mut paths: Vec<StyledFilePath> = Vec::new();
        let mut i: usize = 0;
        let len = self.paths.len();
        while i < len
            invariant
                i <= len,
                len == self.paths@.len(),
                paths@ == self.paths@.subrange(0, i as int),
            decreases len - i,
        {
            let e = &self.paths[i];
            let copy = StyledFilePath {
                path: e.path.clone(),
                display_path: e.display_path.clone(),
                state: e.state,
            };
            assert(copy == self.paths@[i as int]);
            paths.push(copy);
            assert(paths@ =~= self.paths@.subrange(0, i + 1 as int));
            i = i + 1;
        }
        assert(paths@ =~= self.paths@);
        StyledPathList {
            heading: self.heading.clone(),
            paths,
            state: ListState { selected: self.state.selected },
        }
    }

    /// Re-parses the selected entry: its text is split into fragments, each
    /// fragment classified against the filesystem and styled, and the
    /// fragments spliced in place of the entry (one empty fragment stands in
    /// when the text yields none). Returns how many entries the list grew by.
    pub fn parse_selected(&mut self) -> (r: Result<usize, AppError>)
        requires
            old(self).wf(),
            old(self).state.selected is Some,
        ensures
            r is Ok,
            final(self).wf(),
            spec_reparsed_at(*old(self), *final(self), old(self).state.selected->0 as int),
            r->Ok_0 + 1 == spec_fragments_of(
                old(self).paths@[old(self).state.selected->0 as int].path@,
            ).len(),
    {
        let index = self.state.selected.unwrap();
        let ghost text = self.paths@[index as int].path@;
        let ghost frags = spec_fragments_of(text);
        let mut parsed = match file_processing::parse_paths(self.paths[index].path.as_str()) {
            Ok(v) => v,
            Err(e) => {
                return Err(e);
            },
        };
        if parsed.len() == 0 {
            parsed.push(String::new());
            assert(parsed.deep_view() =~= frags) by {
                assert(parsed.deep_view() =~= seq![Seq::<char>::empty()]);
            }
        }
        assert(parsed.deep_view() =~= frags);
        let new_path_count = parsed.len();
        let mut new_paths: Vec<StyledFilePath> = Vec::new();
        let mut j: usize = 0;
        while j < new_path_count
            invariant
                j <= new_path_count,
                new_path_count == parsed@.len(),
                parsed.deep_view() =~= frags,
                new_paths@.len() == j,
                forall|k: int|
                    0 <= k < j ==> {
                        let e = #[trigger] new_paths@[k];
                        &&& e.path@ == frags[k]
                        &&& !(e.state is Unchecked)
                        &&& e.display_path@ == spec_styled(frags[k], e.state)
                        &&& (file_processing::spec_all_whitespace(frags[k]) ==> e.state
                            == PathState::Invalid)
                    },
            decreases new_path_count - j,
        {
            let mut styled_path = StyledFilePath::new(parsed[j].as_str());
            styled_path.validate();
            styled_path.style();
            assert(styled_path.path@ == frags[j as int]);
            new_paths.push(styled_path);
            j = j + 1;
        }
        // Splice the classified fragments in place of the selected entry.
        let ghost base = self.paths@;
        let ghost fresh = new_paths@;
        assert(index < base.len());
        self.paths.remove(index);
        assert(self.paths@ =~= base.subrange(0, index as int) + base.subrange(
            index + 1,
            base.len() as int,
        ));
        let mut k = new_paths.len();
        while k > 0
            invariant
                k <= fresh.len(),
                new_paths@ =~= fresh.subrange(0, k as int),
                index < base.len(),
                fresh.len() >= 1,
                self.heading == old(self).heading,
                self.state == old(self).state,
                self.paths@ =~= base.subrange(0, index as int) + fresh.subrange(
                    k as int,
                    fresh.len() as int,
                ) + base.subrange(index + 1, base.len() as int),
            decreases k,
        {
            k = k - 1;
            let p = match new_paths.pop() {
                Some(p) => p,
                None => {
                    proof {
                        assert(false);
                    }
                    StyledFilePath::new("")
                },
            };
            assert(p == fresh[k as int]);
            self.paths.insert(index, p);
            assert(self.paths@ =~= base.subrange(0, index as int) + fresh.subrange(
                k as int,
                fresh.len() as int,
            ) + base.subrange(index + 1, base.len() as int));
        }
        assert(self.paths@ =~= base.subrange(0, index as int) + fresh + base.subrange(
            index + 1,
            base.len() as int,
        ));
        proof {
            let aft = self.paths@;
            assert(fresh.len() == frags.len());
            assert(aft.len() == base.len() + frags.len() - 1);
            assert forall|t: int| 0 <= t < index implies aft[t] == base[t] by {
                assert(aft[t] == base.subrange(0, index as int)[t]);
            }
            assert forall|t: int|
                index + frags.len() <= t < aft.len() implies aft[t] == base[t + 1 - frags.len()] by {
                assert(aft[t] == base.subrange(index + 1, base.len() as int)[t - index
                    - frags.len()]);
            }
            assert forall|t: int| 0 <= t < frags.len() implies {
                let e = #[trigger] aft[index + t];
                &&& e.path@ == frags[t]
                &&& !(e.state is Unchecked)
                &&& e.display_path@ == spec_styled(frags[t], e.state)
                &&& (file_processing::spec_all_whitespace(frags[t]) ==> e.state
                    == PathState::Invalid)
            } by {
                assert(aft[index + t] == fresh[t]);
            }
        }
        Ok(new_path_count - 1)
    }

    /// Selects the first entry, inserting one empty entry first if the list
    /// is empty; this restores well-formedness whatever the state.
    pub fn select_first(&mut self)
        ensures
            final(self).heading == old(self).heading,
            final(self).wf(),
            final(self).state.selected == Some(0usize),
            old(self).paths@.len() > 0 ==> spec_display_selected(
                old(self).paths@,
                final(self).paths@,
                0,
            ),
            old(self).paths@.len() == 0 ==> ({
                &&& final(self).paths@.len() == 1
                &&& final(self).paths@[0].path@ == Seq::<char>::empty()
                &&& final(self).paths@[0].state == PathState::Unchecked
                &&& final(self).paths@[0].display_path@ == "   "@
            }),
    {
        if self.paths.is_empty() {
            self.insert_empty_element(0);
        }
        self.paths[0].select();
        self.state.select(Some(0));
    }

    /// Moves the cursor one entry forward, with wraparound. An unchecked
    /// entry is re-parsed before the cursor leaves it, and the cursor lands
    /// on the first entry past the freshly parsed block; a checked entry is
    /// merely deselected. An unset cursor lands on the first entry.
    pub fn next(&mut self) -> (r: Result<(), AppError>)
        requires
            old(self).wf(),
        ensures
            r is Ok,
            final(self).wf(),
            final(self).heading == old(self).heading,
            final(self).state.selected is Some,
            spec_next_post(*old(self), *final(self)),
    {
        let mut offset: usize = 1;
        let i_new: usize = match self.state.selected() {
            Some(i) => {
                assert(i < self.paths.len());
                if self.paths[i].state == PathState::Unchecked {
                    let grown = match self.parse_selected() {
                        Ok(g) => g,
                        Err(e) => {
                            proof {
                                assert(false);
                            }
                            0
                        },
                    };
                    let len_now = self.paths.len();
                    proof {
                        let frags = spec_fragments_of(old(self).paths@[i as int].path@);
                        assert(len_now as int == old(self).paths@.len() + frags.len() - 1);
                        assert(grown + 1 == frags.len());
                        assert(grown < len_now);
                    }
                    offset = offset + grown;
                } else {
                    self.paths[i].deselect();
                }
                assert(i + offset <= self.paths@.len());
                (i + offset) % self.paths.len()
            },
            None => 0,
        };
        let ghost mid = *self;
        self.state.select(Some(i_new));
        self.paths[i_new].select();
        proof {
            if old(self).state.selected is Some {
                let i = old(self).state.selected->0;
                if old(self).paths@[i as int].state is Unchecked {
                    assert(spec_reparsed_at(*old(self), mid, i as int));
                    assert(spec_display_selected(mid.paths@, final(self).paths@, i_new as int));
                }
            }
        }
        Ok(())
    }

    /// Moves the cursor one entry back, with wraparound. An unchecked entry
    /// is re-parsed before the cursor leaves it, and the cursor lands on the
    /// entry just before the freshly parsed block; a checked entry is merely
    /// deselected. An unset cursor lands on the first entry.
    pub fn previous(&mut self) -> (r: Result<(), AppError>)
        requires
            old(self).wf(),
        ensures
            r is Ok,
            final(self).wf(),
            final(self).heading == old(self).heading,
            final(self).state.selected is Some,
            spec_prev_post(*old(self), *final(self)),
    {
        let i_new: usize = match self.state.selected() {
            Some(i) => {
                assert(i < self.paths.len());
                if self.paths[i].state == PathState::Unchecked {
                    match self.parse_selected() {
                        Ok(_) => (),
                        Err(e) => {
                            proof {
                                assert(false);
                            }
                        },
                    };
                } else {
                    self.paths[i].deselect();
                }
                if i == 0 {
                    self.paths.len() - 1
                } else {
                    i - 1
                }
            },
            None => 0,
        };
        let ghost mid = *self;
        self.state.select(Some(i_new));
        self.paths[i_new].select();
        proof {
            if old(self).state.selected is Some {
                let i = old(self).state.selected->0;
                if old(self).paths@[i as int].state is Unchecked {
                    assert(spec_reparsed_at(*old(self), mid, i as int));
                    assert(spec_display_selected(mid.paths@, final(self).paths@, i_new as int));
                }
            }
        }
        Ok(())
    }

    /// A shared borrow of the selected entry, if any.
    pub fn selected(&self) -> (r: Option<&StyledFilePath>)
        requires
            self.wf(),
        ensures
            r is Some <==> self.state.selected is Some,
            r matches Some(e) ==> *e == self.paths@[self.state.selected->0 as int],
    {
        match self.state.selected() {
            Some(index) => Some(&self.paths[index]),
            None => None,
        }
    }

    /// Applies one editing key to the selected entry: characters and
    /// backspace edit its text; delete removes the entry, the list never
    /// becoming empty and the cursor staying in range; enter re-parses it and
    /// opens a fresh empty entry in its place; up and down navigate, parsing
    /// on the way out; escape forces a final re-parse, which produces the
    /// authoritative, fully classified list. The per-key transition is
    /// `spec_edit_selected_post`.
    pub fn edit_selected(&mut self, key: &Key) -> (r: Result<(), AppError>)
        requires
            old(self).wf(),
            (key is Down || key is Up || key is Esc) ==> old(self).state.selected is Some,
        ensures
            r is Ok,
            final(self).wf(),
            final(self).paths@.len() >= 1,
            old(self).state.selected is Some ==> final(self).state.selected is Some,
            spec_edit_selected_post(*old(self), *final(self), *key),
    {
        match key {
            Key::Backspace | Key::Char(_) => {
                match self.state.selected() {
                    Some(index) => {
                        assert(index < self.paths.len());
                        self.paths[index].edit(key);
                    },
                    None => (),
                }
            },
            Key::Delete => {
                // Delete the current entry, making sure nothing invalid ends
                // up selected.
                match self.state.selected() {
                    Some(index) => {
                        let mut index = index;
                        assert(index < self.paths.len());
                        let ghost bef = self.paths@;
                        self.paths.remove(index);
                        if self.paths.len() == 0 {
                            let entry = StyledFilePath::new("");
                            proof {
                                reveal_strlit("");
                            }
                            assert(entry.path@ =~= Seq::<char>::empty());
                            self.paths.push(entry);
                        }
                        if index >= self.paths.len() {
                            index = index - 1;
                        }
                        self.state.select(Some(index));
                        self.paths[index].select();
                        proof {
                            if bef.len() == 1 {
                                assert("   "@ + Seq::<char>::empty() =~= "   "@);
                            }
                        }
                    },
                    None => (),
                }
            },
            Key::Down => {
                match self.parse_selected() {
                    Ok(_) => (),
                    Err(_) => {
                        proof {
                            assert(false);
                        }
                    },
                }
                let ghost mid = *self;
                match self.next() {
                    Ok(_) => (),
                    Err(_) => {
                        proof {
                            assert(false);
                        }
                    },
                }
                proof {
                    assert(spec_reparsed_at(
                        *old(self),
                        mid,
                        old(self).state.selected->0 as int,
                    ));
                }
            },
            Key::Enter => {
                match self.state.selected() {
                    Some(index) => {
                        match self.parse_selected() {
                            Ok(_) => (),
                            Err(_) => {
                                proof {
                                    assert(false);
                                }
                            },
                        }
                        let ghost mid = *self;
                        self.insert_empty_element(index);
                        self.paths[index].select();
                        proof {
                            assert("   "@ + Seq::<char>::empty() =~= "   "@);
                            assert(spec_reparsed_at(*old(self), mid, index as int));
                        }
                    },
                    None => (),
                }
            },
            Key::Up => {
                match self.parse_selected() {
                    Ok(_) => (),
                    Err(_) => {
                        proof {
                            assert(false);
                        }
                    },
                }
                let ghost mid = *self;
                match self.previous() {
                    Ok(_) => (),
                    Err(_) => {
                        proof {
                            assert(false);
                        }
                    },
                }
                proof {
                    assert(spec_reparsed_at(
                        *old(self),
                        mid,
                        old(self).state.selected->0 as int,
                    ));
                }
            },
            Key::Esc => {
                match self.parse_selected() {
                    Ok(_) => (),
                    Err(_) => {
                        proof {
                            assert(false);
                        }
                    },
                }
            },
            Key::Other => (),
        }
        Ok(())
    }

    /// Makes sure that everything the cursor touches is parsed and checked —
    /// one step back, one step forward — then returns an independent copy of
    /// the list. The copy's selected entry and that entry's predecessor are
    /// always classified, and exporting a list already in that shape changes
    /// no raw text, no classification, and no cursor: a second export in a
    /// row hands out a copy with identical per-entry states.
    pub fn export(&mut self) -> (r: Result<StyledPathList, AppError>)
        requires
            old(self).wf(),
        ensures
            r is Ok,
            final(self).wf(),
            r->Ok_0.heading == final(self).heading,
            r->Ok_0.paths@ == final(self).paths@,
            r->Ok_0.state == final(self).state,
            spec_export_transition(*old(self), *final(self)),
            old(self).state.selected is Some ==> spec_settled(*final(self)),
            spec_settled(*old(self)) ==> ({
                &&& final(self).spec_states() == old(self).spec_states()
                &&& final(self).spec_raws() == old(self).spec_raws()
                &&& final(self).state.selected == old(self).state.selected
            }),
    {
        let ghost before = *old(self);
        match self.previous() {
            Ok(_) => (),
            Err(_) => {
                proof {
                    assert(false);
                }
            },
        }
        let ghost m1 = *self;
        match self.next() {
            Ok(_) => (),
            Err(_) => {
                proof {
                    assert(false);
                }
            },
        }
        proof {
            let after = *self;
            vstd::std_specs::vec::axiom_spec_len(&before.paths);
            vstd::std_specs::vec::axiom_spec_len(&m1.paths);
            vstd::std_specs::vec::axiom_spec_len(&after.paths);
            assert(spec_export_transition(before, after)) by {
                assert(spec_prev_post(before, m1) && spec_next_post(m1, after));
            }
            if before.state.selected is Some {
                lemma_export_settles(before, m1, after);
            }
            if spec_settled(before) {
                lemma_export_stable(before, m1, after);
            }
        }
        let copy = self.duplicate();
        Ok(copy)
    }
}

/// The wrapped index: stepping to `x` in a cycle of length `m` lands on `x`
/// itself, except that `m` wraps to the front.
proof fn lemma_wrap_index(x: int, m: int)
    requires
        0 < m,
        0 <= x <= m,
    ensures
        x % m == if x == m {
            0int
        } else {
            x
        },
{
    if x == m {
        vstd::arithmetic::div_mod::lemma_mod_self_0(m);
    } else {
        vstd::arithmetic::div_mod::lemma_small_mod(x as nat, m as nat);
    }
}

/// Redrawing one entry as selected keeps every raw text and every state.
proof fn lemma_display_selected_preserves(
    before: Seq<StyledFilePath>,
    after: Seq<StyledFilePath>,
    j: int,
)
    requires
        spec_display_selected(before, after, j),
        0 <= j < before.len(),
    ensures
        after.len() == before.len(),
        forall|k: int| 0 <= k < before.len() ==> after[k].state == before[k].state,
        forall|k: int| 0 <= k < before.len() ==> after[k].path@ == before[k].path@,
{
}

/// One step back then one step forward always leaves the cursor, and the
/// entry before it, on classified entries.
proof fn lemma_export_settles(before: StyledPathList, m1: StyledPathList, after: StyledPathList)
    requires
        before.wf(),
        before.state.selected is Some,
        spec_prev_post(before, m1),
        spec_next_post(m1, after),
        before.paths@.len() <= usize::MAX,
        m1.paths@.len() <= usize::MAX,
        after.paths@.len() <= usize::MAX,
    ensures
        spec_settled(after),
{
    let i = before.state.selected->0 as int;
    let l0 = before.paths@.len() as int;
    if !(before.paths@[i].state is Unchecked) {
        let j1 = if i == 0 {
            l0 - 1
        } else {
            i - 1
        };
        assert(spec_display_selected(before.paths@, m1.paths@, j1));
        lemma_display_selected_preserves(before.paths@, m1.paths@, j1);
        lemma_next_lands_checked(m1, after, j1, l0, before.paths@, i);
    } else {
        let frags1 = spec_fragments_of(before.paths@[i].path@);
        let newlen = l0 + frags1.len() - 1;
        let j1 = if i == 0 {
            newlen - 1
        } else {
            i - 1
        };
        let mid1 = choose|m: StyledPathList|
            {
                &&& #[trigger] spec_reparsed_at(before, m, i)
                &&& spec_display_selected(m.paths@, m1.paths@, j1)
                &&& m1.state.selected == Some(j1 as usize)
            };
        lemma_display_selected_preserves(mid1.paths@, m1.paths@, j1);
        assert(mid1.paths@.len() == newlen);
        // the first entry of the freshly parsed block is classified
        assert(!(mid1.paths@[i + 0].state is Unchecked));
        lemma_next_lands_checked(m1, after, j1, newlen, mid1.paths@, i);
    }
}

/// How one export moves a list: one step back, one step forward.
pub open spec fn spec_export_transition(before: StyledPathList, after: StyledPathList) -> bool {
    exists|mid: StyledPathList|
        #[trigger] spec_prev_post(before, mid) && spec_next_post(mid, after)
}

/// A forward step never shrinks the list.
proof fn lemma_next_post_len(before: StyledPathList, after: StyledPathList)
    requires
        spec_next_post(before, after),
    ensures
        before.paths@.len() <= after.paths@.len(),
{
    match before.state.selected {
        None => {
        },
        Some(i) => {
            if before.paths@[i as int].state is Unchecked {
                let frags = spec_fragments_of(before.paths@[i as int].path@);
                let newlen = before.paths@.len() + frags.len() - 1;
                let j = (i + frags.len()) as int % newlen as int;
                let mid = choose|m: StyledPathList|
                    {
                        &&& #[trigger] spec_reparsed_at(before, m, i as int)
                        &&& spec_display_selected(m.paths@, after.paths@, j)
                        &&& after.state.selected == Some(j as usize)
                    };
                assert(frags.len() >= 1);
                assert(after.paths@.len() == mid.paths@.len());
            }
        },
    }
}

/// Exporting is idempotent with respect to classification: one export always
/// leaves the selected entry and its predecessor classified, and an export of
/// a list in that shape re-parses nothing, so a second export in a row keeps
/// every raw text, every state, and the cursor.
pub proof fn lemma_export_idempotent(l0: StyledPathList, l1: StyledPathList, l2: StyledPathList)
    requires
        l0.wf(),
        l0.state.selected is Some,
        l0.paths@.len() <= usize::MAX,
        l1.paths@.len() <= usize::MAX,
        spec_export_transition(l0, l1),
        spec_export_transition(l1, l2),
    ensures
        l2.spec_states() == l1.spec_states(),
        l2.spec_raws() == l1.spec_raws(),
        l2.state.selected == l1.state.selected,
{
    let mid1 = choose|m: StyledPathList| #[trigger] spec_prev_post(l0, m) && spec_next_post(m, l1);
    lemma_next_post_len(mid1, l1);
    lemma_export_settles(l0, mid1, l1);
    let mid2 = choose|m: StyledPathList| #[trigger] spec_prev_post(l1, m) && spec_next_post(m, l2);
    lemma_export_stable(l1, mid2, l2);
}

/// How one editing key moves a path list: characters and backspace edit the
/// selected entry's text and reset it to `Unchecked`; delete removes the
/// entry, re-seeding a single empty entry when the list would empty and
/// clamping the cursor; escape re-parses the selected entry in place; enter
/// re-parses it and opens a fresh empty entry under the cursor; up and down
/// re-parse on the way out and move the cursor; any other key changes
/// nothing.
pub open spec fn spec_edit_selected_post(
    before: StyledPathList,
    after: StyledPathList,
    key: Key,
) -> bool {
    &&& after.heading == before.heading
    &&& (key is Other ==> after == before)
    &&& ((key is Backspace || key is Char || key is Delete || key is Enter)
        && before.state.selected is None ==> after == before)
    &&& ((key is Backspace || key is Char) ==> (before.state.selected matches Some(i) ==> ({
        let bef = before.paths@;
        let aft = after.paths@;
        &&& aft.len() == bef.len()
        &&& (forall|k: int| 0 <= k < bef.len() && k != (i as int) ==> aft[k] == bef[k])
        &&& aft[i as int].path@ == spec_edited_path(bef[i as int].path@, key)
        &&& aft[i as int].state == PathState::Unchecked
        &&& aft[i as int].display_path@ == "   "@ + aft[i as int].path@
        &&& after.state == before.state
    })))
    &&& (key is Delete ==> (before.state.selected matches Some(i) ==> ({
        let bef = before.paths@;
        if bef.len() == 1 {
            &&& after.paths@.len() == 1
            &&& after.paths@[0].path@ == Seq::<char>::empty()
            &&& after.paths@[0].state == PathState::Unchecked
            &&& after.paths@[0].display_path@ == "   "@
            &&& after.state.selected == Some(0usize)
        } else {
            let j = if i as int >= bef.len() - 1 {
                bef.len() - 2
            } else {
                i as int
            };
            &&& spec_display_selected(bef.remove(i as int), after.paths@, j)
            &&& after.state.selected == Some(j as usize)
        }
    })))
    &&& (key is Esc ==> (before.state.selected is Some ==> spec_reparsed_at(
        before,
        after,
        before.state.selected->0 as int,
    )))
    &&& (key is Enter ==> (before.state.selected matches Some(i) ==> (exists|mid: StyledPathList|
        {
            &&& #[trigger] spec_reparsed_at(before, mid, i as int)
            &&& after.paths@.len() == mid.paths@.len() + 1
            &&& (forall|k: int| 0 <= k < (i as int) ==> after.paths@[k] == mid.paths@[k])
            &&& (forall|k: int|
                (i as int) < k < after.paths@.len() ==> after.paths@[k] == mid.paths@[k - 1])
            &&& after.paths@[i as int].path@ == Seq::<char>::empty()
            &&& after.paths@[i as int].state == PathState::Unchecked
            &&& after.paths@[i as int].display_path@ == "   "@
            &&& after.state.selected == Some(i)
        })))
    &&& (key is Down ==> (before.state.selected is Some ==> (exists|mid: StyledPathList|
        {
            &&& #[trigger] spec_reparsed_at(before, mid, before.state.selected->0 as int)
            &&& spec_next_post(mid, after)
        })))
    &&& (key is Up ==> (before.state.selected is Some ==> (exists|mid: StyledPathList|
        {
            &&& #[trigger] spec_reparsed_at(before, mid, before.state.selected->0 as int)
            &&& spec_prev_post(mid, after)
        })))
}

/// What `previous` promises, packaged for the lemmas above.
pub open spec fn spec_prev_post(before: StyledPathList, after: StyledPathList) -> bool {
    match before.state.selected {
        None => {
            &&& spec_display_selected(before.paths@, after.paths@, 0)
            &&& after.state.selected == Some(0usize)
        },
        Some(i) => {
            if !(before.paths@[i as int].state is Unchecked) {
                let j = if i == 0 {
                    before.paths@.len() - 1
                } else {
                    i as int - 1
                };
                &&& spec_display_selected(before.paths@, after.paths@, j)
                &&& after.state.selected == Some(j as usize)
            } else {
                let frags = spec_fragments_of(before.paths@[i as int].path@);
                let newlen = before.paths@.len() + frags.len() - 1;
                let j = if i == 0 {
                    newlen - 1
                } else {
                    i as int - 1
                };
                exists|mid: StyledPathList|
                    {
                        &&& #[trigger] spec_reparsed_at(before, mid, i as int)
                        &&& spec_display_selected(mid.paths@, after.paths@, j)
                        &&& after.state.selected == Some(j as usize)
                    }
            }
        },
    }
}

/// What `next` promises, packaged for the lemmas above.
pub open spec fn spec_next_post(before: StyledPathList, after: StyledPathList) -> bool {
    match before.state.selected {
        None => {
            &&& spec_display_selected(before.paths@, after.paths@, 0)
            &&& after.state.selected == Some(0usize)
        },
        Some(i) => {
            if !(before.paths@[i as int].state is Unchecked) {
                let j = (i + 1) as int % before.paths@.len() as int;
                &&& spec_display_selected(before.paths@, after.paths@, j)
                &&& after.state.selected == Some(j as usize)
            } else {
                let frags = spec_fragments_of(before.paths@[i as int].path@);
                let newlen = before.paths@.len() + frags.len() - 1;
                let j = (i + frags.len()) as int % newlen as int;
                exists|mid: StyledPathList|
                    {
                        &&& #[trigger] spec_reparsed_at(before, mid, i as int)
                        &&& spec_display_selected(mid.paths@, after.paths@, j)
                        &&& after.state.selected == Some(j as usize)
                    }
            }
        },
    }
}

/// A forward step from cursor `j1` of `m1` lands, classified entries both
/// under the cursor and just before it, provided the entries of `m1` agree in
/// state with a sequence `base` whose block starting at `anchor` is known
/// classified and whose entry `anchor` precedes `j1 + 1` in the cycle.
proof fn lemma_next_lands_checked(
    m1: StyledPathList,
    after: StyledPathList,
    j1: int,
    len1: int,
    base: Seq<StyledFilePath>,
    anchor: int,
)
    requires
        spec_next_post(m1, after),
        m1.state.selected == Some(j1 as usize),
        0 <= j1 < len1,
        len1 <= usize::MAX,
        after.paths@.len() <= usize::MAX,
        m1.paths@.len() == len1,
        base.len() == len1,
        forall|k: int| 0 <= k < len1 ==> m1.paths@[k].state == base[k].state,
        forall|k: int| 0 <= k < len1 ==> m1.paths@[k].path@ == base[k].path@,
        0 <= anchor < len1,
        !(base[anchor].state is Unchecked),
        anchor == if j1 + 1 == len1 {
            0int
        } else {
            j1 + 1
        },
    ensures
        spec_settled(after),
{
    let iu = j1 as usize;
    assert(iu as int == j1);
    assert(m1.state.selected == Some(iu));
    if !(m1.paths@[j1].state is Unchecked) {
        let j2 = (j1 + 1) % len1;
        lemma_wrap_index(j1 + 1, len1);
        assert(j2 == anchor);
        lemma_display_selected_preserves(m1.paths@, after.paths@, j2);
        assert(!(after.paths@[j2].state is Unchecked));
        let p = if j2 == 0 {
            after.paths@.len() - 1
        } else {
            j2 - 1
        };
        assert(p == j1);
        assert(!(after.paths@[p].state is Unchecked));
    } else {
        let frags = spec_fragments_of(m1.paths@[j1].path@);
        let len2 = len1 + frags.len() - 1;
        let j2 = (j1 + frags.len()) as int % len2;
        let mid2 = choose|m: StyledPathList|
            {
                &&& #[trigger] spec_reparsed_at(m1, m, j1)
                &&& spec_display_selected(m.paths@, after.paths@, j2)
                &&& after.state.selected == Some(j2 as usize)
            };
        assert(mid2.paths@.len() == len2);
        assert(0 <= j2 < len2) by {
            lemma_wrap_index(j1 + frags.len(), len2);
        }
        lemma_display_selected_preserves(mid2.paths@, after.paths@, j2);
        lemma_wrap_index(j1 + frags.len(), len2);
        if j1 + frags.len() == len2 {
            // the block runs to the end of the list and the cursor wraps home
            assert(j2 == 0);
            if j1 == 0 {
                // the whole list is the freshly parsed block
                assert(!(mid2.paths@[0].state is Unchecked));
            } else {
                assert(mid2.paths@[0] == m1.paths@[0]);
                assert(anchor == 0);
                assert(!(mid2.paths@[0].state is Unchecked));
            }
            let p = if j2 == 0 {
                after.paths@.len() - 1
            } else {
                j2 - 1
            };
            assert(p == len2 - 1);
            assert(len2 - 1 == j1 + frags.len() - 1);
            assert(!(mid2.paths@[j1 + (frags.len() - 1)].state is Unchecked));
            assert(!(after.paths@[p].state is Unchecked));
        } else {
            assert(j2 == j1 + frags.len());
            // the entry past the block is the anchor entry, shifted
            assert(mid2.paths@[j2] == m1.paths@[j2 + 1 - frags.len()]);
            assert(j2 + 1 - frags.len() == j1 + 1);
            assert(j1 + 1 == anchor);
            assert(!(mid2.paths@[j2].state is Unchecked));
            let p = if j2 == 0 {
                after.paths@.len() - 1
            } else {
                j2 - 1
            };
            assert(p == j1 + (frags.len() - 1));
            assert(!(mid2.paths@[j1 + (frags.len() - 1)].state is Unchecked));
            assert(!(after.paths@[p].state is Unchecked));
        }
        assert(spec_settled(after));
    }
}

/// Exporting a settled list re-parses nothing: every raw text, every state,
/// and the cursor stand as they were.
proof fn lemma_export_stable(before: StyledPathList, m1: StyledPathList, after: StyledPathList)
    requires
        before.wf(),
        spec_settled(before),
        spec_prev_post(before, m1),
        spec_next_post(m1, after),
        before.paths@.len() <= usize::MAX,
    ensures
        after.spec_states() == before.spec_states(),
        after.spec_raws() == before.spec_raws(),
        after.state.selected == before.state.selected,
{
    let c = before.state.selected->0 as int;
    let l0 = before.paths@.len() as int;
    let j1 = if c == 0 {
        l0 - 1
    } else {
        c - 1
    };
    assert(spec_display_selected(before.paths@, m1.paths@, j1));
    lemma_display_selected_preserves(before.paths@, m1.paths@, j1);
    assert(!(m1.paths@[j1].state is Unchecked));
    let j2 = (j1 + 1) % l0;
    lemma_wrap_index(j1 + 1, l0);
    assert(j2 == c);
    assert(spec_display_selected(m1.paths@, after.paths@, j2));
    lemma_display_selected_preserves(m1.paths@, after.paths@, j2);
    assert(after.spec_states() =~= before.spec_states());
    assert(after.spec_raws() =~= before.spec_raws());
}

} // verus!
