//! The icon candidate store: the icons that the search in flight has found so
//! far, the icon currently selected, and the text being searched for.

use crate::common::same_text;
use vstd::prelude::*;
use vstd::std_specs::cmp::PartialEqSpecImpl;

verus! {

/// How the image behind an icon is stored.
#[derive(Debug, Clone, Copy, PartialEq, Eq, Structural)]
pub enum IconType {
    Raster,
    Svg,
}

/// The mathematical model of an [`Icon`].
pub struct IconView {
    pub icon: IconType,
    pub path: Seq<char>,
}

/// An icon that can be displayed. Two icons are the same icon when they have
/// the same path.
#[derive(Debug)]
pub struct Icon {
    pub icon: IconType,
    pub path: String,
}

impl View for Icon {
    type V = IconView;

    open spec fn view(&self) -> IconView {
        IconView { icon: self.icon, path: self.path@ }
    }
}

impl DeepView for Icon {
    type V = IconView;

    open spec fn deep_view(&self) -> IconView {
        self@
    }
}

impl Clone for Icon {
    fn clone(&self) -> (copy: Self)
        ensures
            copy == *self,
    {
        Icon { icon: self.icon, path: self.path.clone() }
    }
}

impl PartialEq for Icon {
    fn eq(&self, other: &Self) -> (same: bool) {
        self.path == other.path
    }
}

impl PartialEqSpecImpl for Icon {
    open spec fn obeys_eq_spec() -> bool {
        true
    }

    open spec fn eq_spec(&self, other: &Self) -> bool {
        self.path@ == other.path@
    }
}

impl Eq for Icon {

}

impl Icon {
    pub fn new(icon: IconType, path: String) -> (made: Self)
        ensures
            made@ == (IconView { icon, path: path@ }),
    {
        Icon { icon, path }
    }
}

/// The generation that follows `generation`; after the largest one the count
/// starts again at zero.
pub open spec fn next_generation(generation: u64) -> u64 {
    if generation == u64::MAX {
        0
    } else {
        (generation + 1) as u64
    }
}

/// The mathematical model of an [`IconPicker`].
pub struct IconPickerView {
    /// The candidates of the current search, in the order in which they
    /// arrived.
    pub icons: Seq<IconView>,
    /// The icon currently selected.
    pub selected: Option<IconView>,
    /// Whether a search is in flight.
    pub loading: bool,
    /// The text being searched for.
    pub icon_searching: Seq<char>,
    /// The tag of the most recently started search.
    pub generation: u64,
}

impl IconPickerView {
    /// No two candidates have the same path.
    pub open spec fn wf(self) -> bool {
        forall|i: int, j: int|
            0 <= i < j < self.icons.len() ==> (#[trigger] self.icons[i]).path != (
            #[trigger] self.icons[j]).path
    }

    /// Whether some candidate has this path.
    pub open spec fn has_path(self, path: Seq<char>) -> bool {
        exists|i: int| 0 <= i < self.icons.len() && (#[trigger] self.icons[i]).path == path
    }

    /// Whether a result tagged `generation` belongs to the current search.
    pub open spec fn is_current(self, generation: u64) -> bool {
        generation == self.generation
    }

    /// A new search starts: the candidates are dropped, the store is loading,
    /// the query is recorded and the generation moves on.
    pub open spec fn begin_search(self, query: Seq<char>) -> IconPickerView {
        IconPickerView {
            icons: Seq::empty(),
            loading: true,
            icon_searching: query,
            generation: next_generation(self.generation),
            ..self
        }
    }

    /// The candidates are dropped; nothing else changes.
    pub open spec fn clear(self) -> IconPickerView {
        IconPickerView { icons: Seq::empty(), ..self }
    }

    /// `candidate` joins the candidates at the end, unless one with its path
    /// is already there.
    pub open spec fn ingest(self, candidate: IconView) -> IconPickerView {
        if self.has_path(candidate.path) {
            self
        } else {
            IconPickerView { icons: self.icons.push(candidate), ..self }
        }
    }

    /// The store after every icon of `candidates` was ingested, first to last.
    pub open spec fn ingest_all(self, candidates: Seq<IconView>) -> IconPickerView
        decreases candidates.len(),
    {
        if candidates.len() == 0 {
            self
        } else {
            self.ingest_all(candidates.drop_last()).ingest(candidates.last())
        }
    }

    /// The candidate that arrived first, if any has arrived.
    pub open spec fn first(self) -> Option<IconView> {
        if self.icons.len() > 0 {
            Some(self.icons[0])
        } else {
            None
        }
    }

    /// Loading ends; where there are candidates, the one that arrived first
    /// becomes the selection.
    pub open spec fn finish_loading(self) -> IconPickerView {
        IconPickerView {
            loading: false,
            selected: if self.icons.len() > 0 {
                Some(self.icons[0])
            } else {
                self.selected
            },
            ..self
        }
    }

    /// `candidate` becomes the selection.
    pub open spec fn select(self, candidate: IconView) -> IconPickerView {
        IconPickerView { selected: Some(candidate), ..self }
    }

    /// The text to search for is replaced and the store stops loading.
    pub open spec fn set_search_text(self, text: Seq<char>) -> IconPickerView {
        IconPickerView { icon_searching: text, loading: false, ..self }
    }
}

/// The working set of an icon search.
#[derive(Debug)]
pub struct IconPicker {
    icons: Vec<Icon>,
    selected: Option<Icon>,
    loading: bool,
    icon_searching: String,
    generation: u64,
}

impl View for IconPicker {
    type V = IconPickerView;

    closed spec fn view(&self) -> IconPickerView {
        IconPickerView {
            icons: self.icons.deep_view(),
            selected: self.selected.deep_view(),
            loading: self.loading,
            icon_searching: self.icon_searching@,
            generation: self.generation,
        }
    }
}

impl Default for IconPicker {
    /// A store with no candidates, no selection and no search text, that is
    /// not loading.
    fn default() -> (store: Self)
        ensures
            store@ == (IconPickerView {
                icons: Seq::empty(),
                selected: None,
                loading: false,
                icon_searching: Seq::empty(),
                generation: 0,
            }),
            store@.wf(),
    {
        let store = IconPicker {
            icons: Vec::new(),
            selected: None,
            loading: false,
            icon_searching: String::new(),
            generation: 0,
        };
        assert(store.icons.deep_view() =~= Seq::empty());
        store
    }
}

impl IconPicker {
    /// What holds of every store: no two candidates have the same path.
    #[verifier::type_invariant]
    pub open spec fn inv(&self) -> bool {
        self@.wf()
    }

    /// Starts a new search for `query` and returns the generation that its
    /// results must carry.
    pub fn begin_search(&mut self, query: String) -> (generation: u64)
        ensures
            final(self)@ == old(self)@.begin_search(query@),
            final(self)@.wf(),
            generation == final(self)@.generation,
    {
        self.icons = Vec::new();
        self.loading = true;
        self.icon_searching = query;
        self.generation = self.generation.wrapping_add(1);
        assert(self.icons.deep_view() =~= Seq::empty());
        self.generation
    }

    /// Drops the candidates.
    pub fn clear(&mut self)
        ensures
            final(self)@ == old(self)@.clear(),
            final(self)@.wf(),
    {
        self.icons = Vec::new();
        assert(self.icons.deep_view() =~= Seq::empty());
    }

    /// Whether some candidate has this path.
    pub fn has_path(&self, path: &str) -> (found: bool)
        ensures
            found == self@.has_path(path@),
    {
        let mut i: usize = 0;
        while i < self.icons.len()
            invariant
                i <= self.icons.len(),
                forall|j: int| 0 <= j < i ==> (#[trigger] self.icons.deep_view()[j]).path != path@,
            decreases self.icons.len() - i,
        {
            if same_text(self.icons[i].path.as_str(), path) {
                assert(self.icons.deep_view()[i as int].path == path@);
                return true;
            }
            i += 1;
        }
        false
    }

    /// Takes `candidate` in, unless a candidate with its path is already
    /// there; says whether it was taken in.
    pub fn ingest(&mut self, candidate: Icon) -> (added: bool)
        ensures
            final(self)@ == old(self)@.ingest(candidate@),
            final(self)@.wf(),
            added == !old(self)@.has_path(candidate@.path),
    {
        proof {
            use_type_invariant(&*self);
        }
        if self.has_path(candidate.path.as_str()) {
            return false;
        }
        let ghost before = self.icons.deep_view();
        let mut icons: Vec<Icon> = Vec::new();
        assert(icons.deep_view() =~= Seq::empty());
        std::mem::swap(&mut self.icons, &mut icons);
        icons.push(candidate);
        assert(icons.deep_view() =~= before.push(candidate@));
        std::mem::swap(&mut self.icons, &mut icons);
        true
    }

    /// Ends loading. Where there are candidates, the one that arrived first
    /// becomes the selection and is returned.
    pub fn finish_loading(&mut self) -> (first: Option<Icon>)
        ensures
            final(self)@ == old(self)@.finish_loading(),
            final(self)@.wf(),
            first.deep_view() == old(self)@.first(),
    {
        proof {
            use_type_invariant(&*self);
        }
        self.loading = false;
        if self.icons.len() > 0 {
            let first = self.icons[0].clone();
            self.selected = Some(first.clone());
            Some(first)
        } else {
            None
        }
    }

    /// Makes `candidate` the selection, whether or not a search is in flight.
    pub fn select(&mut self, candidate: Icon)
        ensures
            final(self)@ == old(self)@.select(candidate@),
            final(self)@.wf(),
    {
        proof {
            use_type_invariant(&*self);
        }
        self.selected = Some(candidate);
    }

    /// Replaces the text to search for; the store stops loading.
    pub fn set_search_text(&mut self, text: String)
        ensures
            final(self)@ == old(self)@.set_search_text(text@),
            final(self)@.wf(),
    {
        proof {
            use_type_invariant(&*self);
        }
        self.icon_searching = text;
        self.loading = false;
    }

    /// Whether a result tagged `generation` belongs to the current search.
    pub fn is_current(&self, generation: u64) -> (current: bool)
        ensures
            current == self@.is_current(generation),
    {
        generation == self.generation
    }

    /// The candidates, in the order in which they arrived.
    pub fn icons(&self) -> (icons: &Vec<Icon>)
        ensures
            icons.deep_view() == self@.icons,
            self@.wf(),
    {
        proof {
            use_type_invariant(self);
        }
        &self.icons
    }

    /// The icon currently selected.
    pub fn selected(&self) -> (selected: &Option<Icon>)
        ensures
            selected.deep_view() == self@.selected,
    {
        &self.selected
    }

    /// Whether a search is in flight.
    pub fn loading(&self) -> (loading: bool)
        ensures
            loading == self@.loading,
    {
        self.loading
    }

    /// The text being searched for.
    pub fn icon_searching(&self) -> (text: &String)
        ensures
            text@ == self@.icon_searching,
    {
        &self.icon_searching
    }

    /// The tag of the most recently started search.
    pub fn generation(&self) -> (generation: u64)
        ensures
            generation == self@.generation,
    {
        self.generation
    }
}

/// Taking a candidate in keeps the paths of the candidates distinct, and a
/// candidate with its path is there afterwards.
pub proof fn lemma_ingest_keeps_paths_unique(store: IconPickerView, candidate: IconView)
    requires
        store.wf(),
    ensures
        store.ingest(candidate).wf(),
        store.ingest(candidate).has_path(candidate.path),
{
    if !store.has_path(candidate.path) {
        let after = store.ingest(candidate);
        assert(after.icons[after.icons.len() - 1].path == candidate.path);
    }
}

/// A candidate whose path was already taken in changes nothing: taking the
/// same path in twice is taking it in once. On an empty store this leaves
/// exactly one candidate.
pub proof fn lemma_ingest_twice_is_once(store: IconPickerView, first: IconView, second: IconView)
    requires
        first.path == second.path,
    ensures
        store.ingest(first).ingest(second) == store.ingest(first),
        store.icons.len() == 0 ==> store.ingest(first).ingest(second).icons.len() == 1,
{
    let once = store.ingest(first);
    if !store.has_path(first.path) {
        assert(once.icons[once.icons.len() - 1].path == second.path);
    }
    assert(once.has_path(second.path));
}

/// Taking candidates in never changes which candidate is first.
pub proof fn lemma_ingest_all_keeps_first(store: IconPickerView, candidates: Seq<IconView>)
    requires
        store.icons.len() > 0,
    ensures
        store.ingest_all(candidates).icons.len() > 0,
        store.ingest_all(candidates).icons[0] == store.icons[0],
        store.ingest_all(candidates).selected == store.selected,
    decreases candidates.len(),
{
    if candidates.len() > 0 {
        lemma_ingest_all_keeps_first(store, candidates.drop_last());
    }
}

/// The candidate that arrives first after a search has started is the one
/// selected when loading ends, whatever arrives after it and in whatever
/// order.
pub proof fn lemma_first_arrival_is_selected(
    store: IconPickerView,
    query: Seq<char>,
    first: IconView,
    later: Seq<IconView>,
)
    ensures
        store.begin_search(query).ingest(first).ingest_all(later).finish_loading().selected
            == Some(first),
{
    let started = store.begin_search(query);
    assert(!started.has_path(first.path));
    lemma_ingest_all_keeps_first(started.ingest(first), later);
}

/// Repeating a search from scratch drops what the searches before it found:
/// right after a search has started the store holds no candidate, and every
/// generation but the new one has become stale.
pub proof fn lemma_begin_search_makes_others_stale(
    store: IconPickerView,
    query: Seq<char>,
    generation: u64,
)
    ensures
        store.begin_search(query).icons.len() == 0,
        store.begin_search(query).is_current(generation) <==> generation == next_generation(
            store.generation,
        ),
        !store.begin_search(query).is_current(store.generation),
{
}

} // verus!
