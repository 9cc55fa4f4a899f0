//! The warning tracker: the validation problems of the launcher being edited,
//! kept as a set that remembers the order in which its entries arrived.

use vstd::prelude::*;

verus! {

/// A validation problem that the creator page can show.
#[derive(Debug, Clone, Copy, PartialEq, Eq, Structural)]
pub enum WarnMessages {
    Info,
    AppName,
    AppUrl,
    AppIcon,
    AppBrowser,
}

/// What a warning message asks the tracker to do with its entry.
#[derive(Debug, Clone, Copy, PartialEq, Eq, Structural)]
pub enum WarnAction {
    Add,
    Remove,
}

impl WarnMessages {
    /// The line shown to the user for this entry.
    pub open spec fn text(self) -> Seq<char> {
        match self {
            WarnMessages::Info => "You don't meet requirements"@,
            WarnMessages::AppName => "  - App name must be longer than 3 characters"@,
            WarnMessages::AppUrl => "  - You must provide valid URL starting with http:// or https://"@,
            WarnMessages::AppIcon => "  - You must select an Icon for your launcher"@,
            WarnMessages::AppBrowser => "  - Please select a browser. Make sure at least one is installed system-wide or via flatpak."@,
        }
    }

    /// The line shown to the user for this entry, as an owned string.
    pub fn message(&self) -> (line: String)
        ensures
            line@ == self.text(),
    {
        match self {
            WarnMessages::Info => "You don't meet requirements".to_owned(),
            WarnMessages::AppName => "  - App name must be longer than 3 characters".to_owned(),
            WarnMessages::AppUrl => "  - You must provide valid URL starting with http:// or https://".to_owned(),
            WarnMessages::AppIcon => "  - You must select an Icon for your launcher".to_owned(),
            WarnMessages::AppBrowser => "  - Please select a browser. Make sure at least one is installed system-wide or via flatpak.".to_owned(),
        }
    }
}

/// The test that every entry but `message` passes.
pub open spec fn other_than(message: WarnMessages) -> spec_fn(WarnMessages) -> bool {
    |m: WarnMessages| m != message
}

/// The mathematical model of a [`Warning`]: its entries in the order in which
/// they were added, and whether the tracker is displayed.
pub struct WarningView {
    pub messages: Seq<WarnMessages>,
    pub show: bool,
}

impl WarningView {
    /// No entry occurs twice.
    pub open spec fn wf(self) -> bool {
        self.messages.no_duplicates()
    }

    /// The tracker with `message` added at the end, unless it is already there.
    pub open spec fn push_warn(self, message: WarnMessages) -> WarningView {
        if self.messages.contains(message) {
            self
        } else {
            WarningView { messages: self.messages.push(message), ..self }
        }
    }

    /// The tracker without any occurrence of `message`; the other entries keep
    /// their order.
    pub open spec fn remove_warn(self, message: WarnMessages) -> WarningView {
        WarningView {
            messages: self.messages.filter(other_than(message)),
            ..self
        }
    }

    /// The tracker with no entries.
    pub open spec fn remove_all_warns(self) -> WarningView {
        WarningView { messages: Seq::empty(), ..self }
    }

    /// The tracker after adding every entry of `messages`, first to last.
    pub open spec fn push_all(self, messages: Seq<WarnMessages>) -> WarningView
        decreases messages.len(),
    {
        if messages.len() == 0 {
            self
        } else {
            self.push_all(messages.drop_last()).push_warn(messages.last())
        }
    }

    /// What the action of a warning message does to the tracker.
    pub open spec fn apply(self, action: WarnAction, message: WarnMessages) -> WarningView {
        match action {
            WarnAction::Add => self.push_warn(message),
            WarnAction::Remove => self.remove_warn(message),
        }
    }

    /// The lines that are displayed: those of `lines` where the tracker is
    /// shown, none where it is hidden.
    pub open spec fn shown_lines(self) -> Seq<Seq<char>> {
        if self.show {
            self.lines()
        } else {
            Seq::empty()
        }
    }

    /// The lines to display: nothing for an empty tracker, otherwise the
    /// introductory line followed by one line for each entry, in insertion
    /// order.
    pub open spec fn lines(self) -> Seq<Seq<char>> {
        if self.messages.len() == 0 {
            Seq::empty()
        } else {
            seq![WarnMessages::Info.text()] + self.messages.map_values(
                |m: WarnMessages| m.text(),
            )
        }
    }
}

/// The validation problems currently known, without duplicates, in the order
/// in which they were first reported.
#[derive(Debug)]
pub struct Warning {
    messages: Vec<WarnMessages>,
    show: bool,
}

impl View for Warning {
    type V = WarningView;

    closed spec fn view(&self) -> WarningView {
        WarningView { messages: self.messages@, show: self.show }
    }
}

impl Clone for Warning {
    fn clone(&self) -> (copy: Self)
        ensures
            copy@ == self@,
    {
        proof {
            use_type_invariant(self);
        }
        Warning { messages: self.messages.clone(), show: self.show }
    }
}

impl Default for Warning {
    /// An empty tracker that is not displayed.
    fn default() -> (tracker: Self)
        ensures
            tracker@ == (WarningView { messages: Seq::empty(), show: false }),
    {
        Self { messages: Vec::new(), show: false }
    }
}

impl Warning {
    /// What holds of every tracker: no entry occurs twice.
    #[verifier::type_invariant]
    pub open spec fn inv(&self) -> bool {
        self@.wf()
    }

    /// A tracker holding `messages` in their order, each kept once, at its
    /// first position.
    pub fn new(messages: Vec<WarnMessages>, show: bool) -> (tracker: Self)
        ensures
            tracker@ == (WarningView { messages: Seq::empty(), show }).push_all(messages@),
            tracker@.wf(),
    {
        let mut tracker = Self { messages: Vec::new(), show };
        let mut i: usize = 0;
        while i < messages.len()
            invariant
                i <= messages.len(),
                tracker@ == (WarningView { messages: Seq::empty(), show }).push_all(
                    messages@.take(i as int),
                ),
            decreases messages.len() - i,
        {
            tracker.push_warn(messages[i]);
            assert(messages@.take(i + 1).drop_last() =~= messages@.take(i as int));
            i += 1;
        }
        assert(messages@.take(i as int) =~= messages@);
        proof {
            use_type_invariant(&tracker);
        }
        tracker
    }

    /// Adds `message` unless the tracker already holds it.
    pub fn push_warn(&mut self, message: WarnMessages) -> (tracker: &mut Self)
        ensures
            tracker@ == old(self)@.push_warn(message),
            tracker@.wf(),
            *final(self) == *final(tracker),
    {
        proof {
            use_type_invariant(&*self);
        }
        if !self.contains(message) {
            let mut entries: Vec<WarnMessages> = Vec::new();
            std::mem::swap(&mut self.messages, &mut entries);
            entries.push(message);
            std::mem::swap(&mut self.messages, &mut entries);
        }
        self
    }

    /// Removes `message`; a tracker that does not hold it stays as it is.
    pub fn remove_warn(&mut self, message: WarnMessages) -> (tracker: &mut Self)
        ensures
            tracker@ == old(self)@.remove_warn(message),
            tracker@.wf(),
            *final(self) == *final(tracker),
    {
        proof {
            use_type_invariant(&*self);
        }
        let ghost keep = other_than(message);
        let mut kept: Vec<WarnMessages> = Vec::new();
        let mut i: usize = 0;
        while i < self.messages.len()
            invariant
                i <= self.messages.len(),
                self.messages@.no_duplicates(),
                keep == other_than(message),
                kept@ == self.messages@.take(i as int).filter(keep),
                kept@.no_duplicates(),
                forall|k: int|
                    0 <= k < kept@.len() ==> self.messages@.take(i as int).contains(
                        #[trigger] kept@[k],
                    ),
            decreases self.messages.len() - i,
        {
            let entry = self.messages[i];
            proof {
                let seen = self.messages@.take(i as int);
                assert(self.messages@.take(i + 1) =~= seen.push(entry));
                seen.lemma_filter_push(entry, keep);
                assert(!seen.contains(entry));
                assert forall|k: int| 0 <= k < kept@.len() implies seen.push(entry).contains(
                    #[trigger] kept@[k],
                ) by {
                    let at = choose|at: int| 0 <= at < seen.len() && seen[at] == kept@[k];
                    assert(seen.push(entry)[at] == kept@[k]);
                }
            }
            if entry != message {
                kept.push(entry);
                assert(self.messages@.take(i + 1)[i as int] == entry);
            }
            i += 1;
        }
        assert(self.messages@.take(i as int) =~= self.messages@);
        self.messages = kept;
        self
    }

    /// Empties the tracker.
    pub fn remove_all_warns(&mut self) -> (tracker: &mut Self)
        ensures
            tracker@ == old(self)@.remove_all_warns(),
            tracker@.wf(),
            *final(self) == *final(tracker),
    {
        self.messages = Vec::new();
        self
    }

    /// Adds or removes `message`, as `action` says.
    pub fn apply(&mut self, action: WarnAction, message: WarnMessages)
        ensures
            final(self)@ == old(self)@.apply(action, message),
            final(self)@.wf(),
    {
        match action {
            WarnAction::Add => {
                self.push_warn(message);
            },
            WarnAction::Remove => {
                self.remove_warn(message);
            },
        }
    }

    /// Whether the tracker holds `message`.
    pub fn contains(&self, message: WarnMessages) -> (found: bool)
        ensures
            found == self@.messages.contains(message),
    {
        let mut i: usize = 0;
        while i < self.messages.len()
            invariant
                i <= self.messages.len(),
                forall|j: int| 0 <= j < i ==> self.messages@[j] != message,
            decreases self.messages.len() - i,
        {
            if self.messages[i] == message {
                return true;
            }
            i += 1;
        }
        false
    }

    /// The entries, in insertion order.
    pub fn messages(&self) -> (entries: &Vec<WarnMessages>)
        ensures
            entries@ == self@.messages,
            entries@.no_duplicates(),
    {
        proof {
            use_type_invariant(self);
        }
        &self.messages
    }

    /// The number of entries.
    pub fn len(&self) -> (count: usize)
        ensures
            count == self@.messages.len(),
    {
        self.messages.len()
    }

    /// Whether the tracker has no entries.
    pub fn is_empty(&self) -> (empty: bool)
        ensures
            empty == (self@.messages.len() == 0),
    {
        self.messages.len() == 0
    }

    /// Whether the tracker is displayed.
    pub fn show(&self) -> (shown: bool)
        ensures
            shown == self@.show,
    {
        self.show
    }

    /// The lines that are displayed, first to last: the rendered lines where
    /// the tracker is shown, none where it is hidden.
    pub fn shown_lines(&self) -> (lines: Vec<String>)
        ensures
            lines.deep_view() == self@.shown_lines(),
    {
        if self.show {
            self.render()
        } else {
            let lines: Vec<String> = Vec::new();
            assert(lines.deep_view() =~= self@.shown_lines());
            lines
        }
    }

    /// The lines to display, first to last.
    pub fn render(&self) -> (lines: Vec<String>)
        ensures
            lines.deep_view() == self@.lines(),
    {
        let mut lines: Vec<String> = Vec::new();
        if self.messages.len() == 0 {
            assert(lines.deep_view() =~= self@.lines());
            return lines;
        }
        lines.push(WarnMessages::Info.message());
        let mut i: usize = 0;
        while i < self.messages.len()
            invariant
                i <= self.messages.len(),
                lines@.len() == i + 1,
                lines@[0]@ == WarnMessages::Info.text(),
                forall|j: int| 0 <= j < i ==> (#[trigger] lines@[j + 1])@ == self.messages@[j].text(),
            decreases self.messages.len() - i,
        {
            lines.push(self.messages[i].message());
            i += 1;
        }
        assert(lines.deep_view() =~= self@.lines()) by {
            assert forall|j: int| 0 <= j < lines@.len() implies lines.deep_view()[j]
                == self@.lines()[j] by {
                if j > 0 {
                    assert(lines@[(j - 1) + 1]@ == self.messages@[j - 1].text());
                }
            }
        }
        lines
    }
}

/// Adding an entry to a tracker without duplicates leaves it without
/// duplicates, and the entry is in it afterwards.
pub proof fn lemma_push_warn_keeps_entries_unique(tracker: WarningView, message: WarnMessages)
    requires
        tracker.wf(),
    ensures
        tracker.push_warn(message).wf(),
        tracker.push_warn(message).messages.contains(message),
{
    if !tracker.messages.contains(message) {
        let after = tracker.messages.push(message);
        assert(after[after.len() - 1] == message);
    }
}

/// However many entries are added to a tracker without duplicates, and in
/// whatever order, no entry ever occurs in it twice.
pub proof fn lemma_adds_never_duplicate(tracker: WarningView, messages: Seq<WarnMessages>)
    requires
        tracker.wf(),
    ensures
        tracker.push_all(messages).wf(),
    decreases messages.len(),
{
    if messages.len() > 0 {
        lemma_adds_never_duplicate(tracker, messages.drop_last());
        lemma_push_warn_keeps_entries_unique(
            tracker.push_all(messages.drop_last()),
            messages.last(),
        );
    }
}

/// Removing an entry leaves a tracker that does not hold it, holds every other
/// entry that was there, and has no duplicates if it had none.
pub proof fn lemma_remove_warn_removes(tracker: WarningView, message: WarnMessages)
    ensures
        !tracker.remove_warn(message).messages.contains(message),
        forall|other: WarnMessages|
            other != message ==> (tracker.remove_warn(message).messages.contains(other)
                <==> tracker.messages.contains(other)),
        tracker.wf() ==> tracker.remove_warn(message).wf(),
{
    let keep = other_than(message);
    let entries = tracker.messages;
    let kept = entries.filter(keep);
    if kept.contains(message) {
        let at = choose|at: int| 0 <= at < kept.len() && kept[at] == message;
        entries.lemma_filter_pred(keep, at);
    }
    assert forall|other: WarnMessages| other != message implies (kept.contains(other)
        <==> entries.contains(other)) by {
        if entries.contains(other) {
            let at = choose|at: int| 0 <= at < entries.len() && entries[at] == other;
            entries.lemma_filter_contains(keep, at);
        }
        if kept.contains(other) {
            entries.lemma_filter_contains_rev(keep, other);
        }
    }
    if tracker.wf() {
        lemma_filter_keeps_entries_unique(entries, keep);
    }
}

/// Filtering a sequence without duplicates leaves it without duplicates.
proof fn lemma_filter_keeps_entries_unique(
    entries: Seq<WarnMessages>,
    keep: spec_fn(WarnMessages) -> bool,
)
    requires
        entries.no_duplicates(),
    ensures
        entries.filter(keep).no_duplicates(),
    decreases entries.len(),
{
    reveal(Seq::filter);
    if entries.len() > 0 {
        let rest = entries.drop_last();
        let last = entries.last();
        lemma_filter_keeps_entries_unique(rest, keep);
        if keep(last) && rest.filter(keep).contains(last) {
            rest.lemma_filter_contains_rev(keep, last);
            let at = choose|at: int| 0 <= at < rest.len() && rest[at] == last;
            assert(entries[at] == entries[entries.len() - 1]);
        }
    }
}

/// Removing an entry a second time changes nothing, and so does removing an
/// entry that is not there.
pub proof fn lemma_remove_warn_idempotent(tracker: WarningView, message: WarnMessages)
    ensures
        tracker.remove_warn(message).remove_warn(message) == tracker.remove_warn(message),
        !tracker.messages.contains(message) ==> tracker.remove_warn(message) == tracker,
{
    let keep = other_than(message);
    lemma_filter_keeps_all(tracker.messages.filter(keep), keep);
    lemma_remove_warn_removes(tracker, message);
    if !tracker.messages.contains(message) {
        lemma_filter_keeps_all(tracker.messages, keep);
    }
}

/// A filter that every element passes returns the sequence itself.
proof fn lemma_filter_keeps_all(entries: Seq<WarnMessages>, keep: spec_fn(WarnMessages) -> bool)
    requires
        forall|i: int| 0 <= i < entries.len() ==> keep(#[trigger] entries[i]),
    ensures
        entries.filter(keep) == entries,
    decreases entries.len(),
{
    reveal(Seq::filter);
    if entries.len() > 0 {
        lemma_filter_keeps_all(entries.drop_last(), keep);
        assert(entries.drop_last().push(entries.last()) =~= entries);
    }
}

} // verus!
