//! A picker: a list of items that a query narrows down and from which one
//! item is chosen.

use vstd::prelude::*;

verus! {

/// The lower-case form of a text, as `str::to_lowercase` gives it.
pub uninterp spec fn lowercase(text: Seq<char>) -> Seq<char>;

/// Whether `needle` occurs in `text` as a run of neighbouring characters.
pub open spec fn occurs_in(text: Seq<char>, needle: Seq<char>) -> bool {
    exists|start: int|
        0 <= start && start + needle.len() <= text.len() && #[trigger] text.subrange(
            start,
            start + needle.len(),
        ) == needle
}

/// Whether `item` matches `query`: the query occurs in the item, letter
/// case set aside.
pub open spec fn matches_query(item: Seq<char>, query: Seq<char>) -> bool {
    occurs_in(lowercase(item), lowercase(query))
}

/// The lower-case form of `text`.
///
/// Trusted: the body calls `str::to_lowercase`, which returns the lowercase
/// equivalent of the text as a new string. The contract only gives that
/// result its name.
#[verifier::external_body]
fn to_lowercase(text: &str) -> (lower: String)
    ensures
        lower@ == lowercase(text@),
{
    text.to_lowercase()
}

/// Whether `needle` occurs in `text`.
///
/// Trusted: the body calls `str::contains` with a string as the pattern,
/// which returns whether the pattern matches a sub-slice of the text: that
/// is, whether the characters of the pattern occur in the text next to each
/// other and in their order.
#[verifier::external_body]
fn contains(text: &str, needle: &str) -> (found: bool)
    ensures
        found == occurs_in(text@, needle@),
{
    text.contains(needle)
}

/// What a picker's list shows, and which entry of it is marked.
#[derive(Debug, PartialEq, Eq)]
pub struct ListItemDeletegate {
    /// The entry that was confirmed last, or the first before any was.
    pub selected_index: usize,
    /// The items that match the query, in the order of the picker's items.
    pub matches: Vec<String>,
}

/// One entry of the list as it is to be drawn.
#[derive(Debug, PartialEq, Eq)]
pub struct ListEntry {
    /// The item's text.
    pub label: String,
    /// Whether the entry carries the mark of the chosen one.
    pub selected: bool,
}

impl ListItemDeletegate {
    /// How many entries the list shows.
    pub fn items_count(&self) -> (count: usize)
        ensures
            count == self.matches@.len(),
    {
        self.matches.len()
    }

    /// The entry that the list marks as confirmed.
    pub fn confirmed_index(&self) -> (index: Option<usize>)
        ensures
            index == Some(self.selected_index),
    {
        Some(self.selected_index)
    }

    /// The entry `ix` as it is to be drawn, if the list has one.
    pub fn render_item(&self, ix: usize) -> (entry: Option<ListEntry>)
        ensures
            match entry {
                Some(entry) => ix < self.matches@.len() && entry.label == self.matches@[ix as int]
                    && entry.selected == (ix == self.selected_index),
                None => ix >= self.matches@.len(),
            },
    {
        if ix < self.matches.len() {
            Some(ListEntry { label: self.matches[ix].clone(), selected: ix == self.selected_index })
        } else {
            None
        }
    }
}

/// A picker: its items, the list that narrows them down, and the choice.
#[derive(Debug, PartialEq, Eq)]
pub struct PickerStory {
    /// The list on screen.
    pub list: ListItemDeletegate,
    /// Whether the list is on screen.
    pub open: bool,
    /// Everything that can be picked.
    pub items: Vec<String>,
    /// The item that was picked last, if any was.
    pub selected_value: Option<String>,
}

/// The items among the first `end` of `items` that match `query`, in their
/// order.
pub open spec fn matching(items: Seq<String>, query: Seq<char>, end: int) -> Seq<String>
    decreases end,
{
    if end <= 0 {
        Seq::empty()
    } else if end <= items.len() && matches_query(items[end - 1]@, query) {
        matching(items, query, end - 1).push(items[end - 1])
    } else {
        matching(items, query, end - 1)
    }
}

impl PickerStory {
    /// A closed picker of `items` whose list shows all of them.
    pub fn new(items: Vec<String>) -> (story: Self)
        ensures
            story.items == items,
            story.list.matches@ == items@,
            story.list.selected_index == 0,
            !story.open,
            story.selected_value is None,
    {
        let mut matches: Vec<String> = Vec::new();
        let mut i: usize = 0;
        while i < items.len()
            invariant
                i <= items@.len(),
                matches@ == items@.take(i as int),
            decreases items@.len() - i,
        {
            matches.push(items[i].clone());
            i = i + 1;
        }
        PickerStory {
            list: ListItemDeletegate { selected_index: 0, matches },
            open: false,
            items,
            selected_value: None,
        }
    }

    /// Narrows the list down to the items that match `query`.
    pub fn update_items(&mut self, query: &str)
        ensures
            final(self).list.matches@ == matching(
                old(self).items@,
                query@,
                old(self).items@.len() as int,
            ),
            final(self).list.selected_index == old(self).list.selected_index,
            final(self).open == old(self).open,
            final(self).items == old(self).items,
            final(self).selected_value == old(self).selected_value,
    {
        let wanted = to_lowercase(query);
        let mut matches: Vec<String> = Vec::new();
        let mut i: usize = 0;
        while i < self.items.len()
            invariant
                i <= self.items@.len(),
                wanted@ == lowercase(query@),
                matches@ == matching(self.items@, query@, i as int),
            decreases self.items@.len() - i,
        {
            let lower = to_lowercase(self.items[i].as_str());
            if contains(lower.as_str(), wanted.as_str()) {
                matches.push(self.items[i].clone());
            }
            i = i + 1;
        }
        self.list.matches = matches;
    }

    /// Confirms the entry `ix` of the list, or nothing, and closes the list.
    /// A confirmed entry becomes the marked one, and the picked item too
    /// where the list has such an entry.
    pub fn confirm(&mut self, ix: Option<usize>)
        ensures
            !final(self).open,
            final(self).items == old(self).items,
            final(self).list.matches == old(self).list.matches,
            final(self).list.selected_index == (match ix {
                Some(ix) => ix,
                None => old(self).list.selected_index,
            }),
            final(self).selected_value == (match ix {
                Some(ix) if ix < old(self).list.matches@.len() => Some(
                    old(self).list.matches@[ix as int],
                ),
                _ => old(self).selected_value,
            }),
    {
        if let Some(ix) = ix {
            self.list.selected_index = ix;
            if ix < self.list.matches.len() {
                self.selected_value = Some(self.list.matches[ix].clone());
            }
        }
        self.open = false;
    }

    /// Closes the list without a choice.
    pub fn cancel(&mut self)
        ensures
            *final(self) == (PickerStory { open: false, ..*old(self) }),
    {
        self.open = false;
    }

    /// The button that shows the picker was pressed: an open list closes, a
    /// closed one opens.
    pub fn toggle(&mut self)
        ensures
            *final(self) == (PickerStory { open: !old(self).open, ..*old(self) }),
    {
        self.open = !self.open;
    }
}

} // verus!
