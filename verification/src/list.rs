use crate::lemmas::lemma_empty_query_shows_all;
use crate::text::{
    chars_of, contains, extend, fold_case, lowercase, occurs_in, shorten, shortened, texts,
};
use vstd::prelude::*;

verus! {

/// An item passes a query when the query is empty or when the lowercase form
/// of the query is a contiguous part of the lowercase form of the item.
pub open spec fn matches_query(item: Seq<char>, query: Seq<char>) -> bool {
    query.len() == 0 || occurs_in(lowercase(query), lowercase(item))
}

/// The items of `source` that pass `query`, in their order in `source`.
pub open spec fn filter_by(source: Seq<Seq<char>>, query: Seq<char>) -> Seq<Seq<char>> {
    source.filter(|item: Seq<char>| matches_query(item, query))
}

/// What a list is: the items it was loaded with, the query that narrows them,
/// and the position of the selection among the items that pass the query.
pub struct ListModel {
    pub source: Seq<Seq<char>>,
    pub query: Seq<char>,
    pub index: nat,
}

impl ListModel {
    /// A list as it is right after loading: no query, selection at the top.
    pub open spec fn fresh(source: Seq<Seq<char>>) -> ListModel {
        ListModel { source, query: Seq::empty(), index: 0 }
    }

    /// The items on display.
    pub open spec fn shown(self) -> Seq<Seq<char>> {
        filter_by(self.source, self.query)
    }

    /// The selection points at an item on display, or rests at 0 where
    /// nothing is on display.
    pub open spec fn wf(self) -> bool {
        self.index < self.shown().len() || self.index == 0
    }

    /// The selected item, if anything is on display.
    pub open spec fn selected(self) -> Option<Seq<char>> {
        if self.index < self.shown().len() {
            Some(self.shown()[self.index as int])
        } else {
            None
        }
    }

    /// The same list with the selection at `index`, or at the last item where
    /// `index` lies beyond it.
    pub open spec fn at(self, index: nat) -> ListModel {
        if index < self.shown().len() {
            ListModel { index, ..self }
        } else if self.shown().len() > 0 {
            ListModel { index: (self.shown().len() - 1) as nat, ..self }
        } else {
            ListModel { index: 0, ..self }
        }
    }

    /// One step down; stays at the last item.
    pub open spec fn down(self) -> ListModel {
        if self.index + 1 < self.shown().len() {
            ListModel { index: self.index + 1, ..self }
        } else {
            self
        }
    }

    /// One step up; stays at the first item.
    pub open spec fn up(self) -> ListModel {
        if self.index > 0 {
            ListModel { index: (self.index - 1) as nat, ..self }
        } else {
            self
        }
    }

    /// Selection at the first item.
    pub open spec fn first(self) -> ListModel {
        ListModel { index: 0, ..self }
    }

    /// Selection at the last item; unchanged where nothing is on display.
    pub open spec fn last(self) -> ListModel {
        if self.shown().len() > 0 {
            ListModel { index: (self.shown().len() - 1) as nat, ..self }
        } else {
            self
        }
    }

    /// The same items under another query, selection back at the top.
    pub open spec fn searched(self, query: Seq<char>) -> ListModel {
        ListModel { source: self.source, query, index: 0 }
    }

    /// The query with one more character.
    pub open spec fn typed(self, c: char) -> ListModel {
        self.searched(self.query.push(c))
    }

    /// The query without its last character.
    pub open spec fn erased(self) -> ListModel {
        self.searched(shortened(self.query))
    }
}

/// A list of display strings with a selection and a live search query.
///
/// The items it was loaded with are kept; what is on display is always
/// computed from them and the query.
pub struct ListContext {
    source: Vec<String>,
    query: String,
    shown: Vec<String>,
    index: usize,
}

impl View for ListContext {
    type V = ListModel;

    closed spec fn view(&self) -> ListModel {
        ListModel { source: texts(self.source@), query: self.query@, index: self.index as nat }
    }
}

/// The items of `source` that pass `query`.
pub fn filter_items(source: &Vec<String>, query: &str) -> (shown: Vec<String>)
    ensures
        texts(shown@) == filter_by(texts(source@), query@),
        query@.len() == 0 ==> texts(shown@) == texts(source@),
{
    proof {
        if query@.len() == 0 {
            assert(query@ =~= Seq::<char>::empty());
            lemma_empty_query_shows_all(texts(source@));
        }
    }
    let needle = fold_case(query);
    let all: bool = chars_of(query).len() == 0;
    let mut shown: Vec<String> = Vec::new();
    let mut i: usize = 0;
    proof {
        reveal(Seq::filter);
        assert(texts(source@).take(0) =~= Seq::<Seq<char>>::empty());
        assert(texts(shown@) =~= Seq::<Seq<char>>::empty());
    }
    while i < source.len()
        invariant
            i <= source.len(),
            needle@ == lowercase(query@),
            all == (query@.len() == 0),
            texts(shown@) == filter_by(texts(source@).take(i as int), query@),
        decreases source.len() - i,
    {
        let item = &source[i];
        let ghost before = texts(shown@);
        let keep: bool = all || contains(&fold_case(item.as_str()), &needle);
        if keep {
            shown.push(item.clone());
        }
        proof {
            reveal(Seq::filter);
            let upto = texts(source@).take(i + 1);
            assert(upto.drop_last() =~= texts(source@).take(i as int));
            assert(upto.last() == item@);
            assert(keep == matches_query(item@, query@));
            if keep {
                assert(texts(shown@) =~= before.push(item@));
            }
        }
        i += 1;
    }
    proof {
        assert(texts(source@).take(source.len() as int) =~= texts(source@));
    }
    shown
}

impl ListContext {
    /// What is on display is what the query lets through, and the selection
    /// lies within it.
    pub closed spec fn wf(&self) -> bool {
        &&& texts(self.shown@) == self@.shown()
        &&& self@.wf()
    }

    /// In a valid list the selection lies within what is on display.
    pub proof fn lemma_wf(&self)
        requires
            self.wf(),
        ensures
            self@.wf(),
    {
    }

    /// A list freshly loaded with `items`.
    pub fn new(items: Vec<String>) -> (list: ListContext)
        ensures
            list.wf(),
            list@ == ListModel::fresh(texts(items@)),
            list@.shown() == texts(items@),
    {
        let shown = filter_items(&items, "");
        proof {
            reveal_strlit("");
            assert(""@ =~= Seq::<char>::empty());
        }
        ListContext { source: items, query: String::new(), shown, index: 0 }
    }

    /// The items on display.
    pub fn items(&self) -> (shown: &Vec<String>)
        requires
            self.wf(),
        ensures
            texts(shown@) == self@.shown(),
    {
        &self.shown
    }

    /// The items the list was loaded with.
    pub fn source(&self) -> (source: &Vec<String>)
        ensures
            texts(source@) == self@.source,
    {
        &self.source
    }

    /// The search query.
    pub fn query(&self) -> (query: &str)
        ensures
            query@ == self@.query,
    {
        self.query.as_str()
    }

    /// The position of the selection among the items on display.
    pub fn index(&self) -> (index: usize)
        ensures
            index == self@.index,
    {
        self.index
    }

    /// How many items are on display.
    pub fn len(&self) -> (len: usize)
        requires
            self.wf(),
        ensures
            len == self@.shown().len(),
    {
        proof {
            assert(texts(self.shown@).len() == self.shown@.len());
        }
        self.shown.len()
    }

    /// The selected item, or `None` where nothing is on display.
    pub fn selected(&self) -> (item: Option<&String>)
        requires
            self.wf(),
        ensures
            match item {
                Some(s) => self@.selected() == Some(s@),
                None => self@.selected() is None,
            },
    {
        proof {
            assert(texts(self.shown@).len() == self.shown@.len());
        }
        if self.index < self.shown.len() {
            proof {
                assert(texts(self.shown@)[self.index as int] == self.shown@[self.index as int]@);
            }
            Some(&self.shown[self.index])
        } else {
            None
        }
    }

    /// The row to highlight: the selection, or none where nothing is on display.
    pub fn highlight(&self) -> (row: Option<usize>)
        requires
            self.wf(),
        ensures
            row == highlight_of(self@),
    {
        proof {
            assert(texts(self.shown@).len() == self.shown@.len());
        }
        if self.index < self.shown.len() {
            Some(self.index)
        } else {
            None
        }
    }

    /// Moves the selection to `index`, or to the last item where `index` lies
    /// beyond it.
    pub fn select(&mut self, index: usize)
        requires
            old(self).wf(),
        ensures
            final(self).wf(),
            final(self)@ == old(self)@.at(index as nat),
    {
        proof {
            assert(texts(self.shown@).len() == self.shown@.len());
        }
        if index < self.shown.len() {
            self.index = index;
        } else if self.shown.len() > 0 {
            self.index = self.shown.len() - 1;
        } else {
            self.index = 0;
        }
    }

    /// Moves the selection one item down. At the last item, and where nothing
    /// is on display, it stays.
    pub fn increment(&mut self)
        requires
            old(self).wf(),
        ensures
            final(self).wf(),
            final(self)@ == old(self)@.down(),
            final(self)@.shown() == old(self)@.shown(),
            old(self)@.shown().len() > 0 ==> final(self)@.index < old(self)@.shown().len(),
    {
        proof {
            assert(texts(self.shown@).len() == self.shown@.len());
        }
        if self.index < self.shown.len() && self.index + 1 < self.shown.len() {
            self.index += 1;
        }
    }

    /// Moves the selection one item up. At the first item it stays.
    pub fn decrement(&mut self)
        requires
            old(self).wf(),
        ensures
            final(self).wf(),
            final(self)@ == old(self)@.up(),
            final(self)@.shown() == old(self)@.shown(),
            old(self)@.shown().len() > 0 ==> final(self)@.index < old(self)@.shown().len(),
    {
        if self.index > 0 {
            self.index -= 1;
        }
    }

    /// Moves the selection to the first item.
    pub fn jump_to_first(&mut self)
        requires
            old(self).wf(),
        ensures
            final(self).wf(),
            final(self)@ == old(self)@.first(),
            final(self)@.index == 0,
    {
        self.index = 0;
    }

    /// Moves the selection to the last item. Where nothing is on display the
    /// list stays as it is.
    pub fn jump_to_last(&mut self)
        requires
            old(self).wf(),
        ensures
            final(self).wf(),
            final(self)@ == old(self)@.last(),
            old(self)@.shown().len() > 0 ==> final(self)@.index == old(self)@.shown().len() - 1,
            old(self)@.shown().len() == 0 ==> final(self)@ == old(self)@,
    {
        proof {
            assert(texts(self.shown@).len() == self.shown@.len());
        }
        if self.shown.len() > 0 {
            self.index = self.shown.len() - 1;
        }
    }

    /// Replaces the query. What is on display is computed anew from the items
    /// the list was loaded with, and the selection returns to the top.
    pub fn search(&mut self, query: String)
        requires
            old(self).wf(),
        ensures
            final(self).wf(),
            final(self)@ == old(self)@.searched(query@),
    {
        self.shown = filter_items(&self.source, query.as_str());
        self.query = query;
        self.index = 0;
    }

    /// Appends `c` to the query.
    pub fn push_query(&mut self, c: char)
        requires
            old(self).wf(),
        ensures
            final(self).wf(),
            final(self)@ == old(self)@.typed(c),
    {
        let query = extend(self.query.as_str(), c);
        self.search(query);
    }

    /// Removes the last character of the query, if it has one. Items that the
    /// longer query hid and the shorter one lets through are on display again.
    pub fn pop_query(&mut self)
        requires
            old(self).wf(),
        ensures
            final(self).wf(),
            final(self)@ == old(self)@.erased(),
    {
        let query = shorten(self.query.as_str());
        self.search(query);
    }

    /// Empties the query: every item is on display again.
    pub fn clear_query(&mut self)
        requires
            old(self).wf(),
        ensures
            final(self).wf(),
            final(self)@ == old(self)@.searched(Seq::empty()),
            final(self)@.shown() == old(self)@.source,
    {
        proof {
            lemma_empty_query_shows_all(self@.source);
        }
        proof {
            reveal_strlit("");
            assert(""@ =~= Seq::<char>::empty());
        }
        self.search(String::new());
    }
}

/// The row to highlight for a list: its selection, or none where nothing is on
/// display.
pub open spec fn highlight_of(list: ListModel) -> Option<usize> {
    if list.index < list.shown().len() {
        Some(list.index as usize)
    } else {
        None
    }
}

} // verus!
