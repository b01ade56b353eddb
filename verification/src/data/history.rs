//! The command history, and stepping through it from the input field.
//!
//! The list is ordered newest first. Reading and writing the file behind it
//! is the host's business: it hands in the lines it read, and writes out the
//! list whenever `save_history` has changed it.

use crate::text::char_is_white_space;
use crate::text::chars_of;
use crate::text::is_white_space;
use vstd::prelude::*;

verus! {

/// The most entries the history keeps.
pub const HISTORY_CAP: usize = 50;

/// Who caused the input field's latest change of text.
#[derive(Debug, Clone, Copy, PartialEq, Eq, Structural)]
pub enum WriteOrigin {
    /// The user typed, pasted or deleted.
    UserEdit,
    /// The application wrote the text itself, and the field's own change
    /// notice must not be taken for an edit.
    ProgrammaticWrite,
}

/// The texts of a list of strings.
pub open spec fn texts(list: Seq<String>) -> Seq<Seq<char>> {
    Seq::new(list.len(), |i: int| list[i]@)
}

/// Whether a line holds nothing but white space.
pub open spec fn is_blank(line: Seq<char>) -> bool {
    forall|i: int| 0 <= i < line.len() ==> is_white_space(#[trigger] line[i])
}

/// The lines that are not blank, in their order.
pub open spec fn non_blank(lines: Seq<Seq<char>>) -> Seq<Seq<char>> {
    lines.filter(|l: Seq<char>| !is_blank(l))
}

/// The list without the first entry equal to `cmd`, if there is one.
pub open spec fn without_first(list: Seq<Seq<char>>, cmd: Seq<char>) -> Seq<Seq<char>> {
    match list.index_of_first(cmd) {
        Some(i) => list.remove(i),
        None => list,
    }
}

/// The history after `cmd` was run: `cmd` in front, its earlier entry gone,
/// and no more than the cap kept.
pub open spec fn saved(list: Seq<Seq<char>>, cmd: Seq<char>) -> Seq<Seq<char>> {
    let grown = seq![cmd] + without_first(list, cmd);
    if grown.len() > HISTORY_CAP {
        grown.subrange(0, HISTORY_CAP as int)
    } else {
        grown
    }
}

/// The position reached from `index` by a step of `delta` in a list of `len`
/// entries: `index + delta`, held within `-1 ..= len - 1`.
pub open spec fn cycled(index: int, delta: int, len: int) -> int {
    let to = index + delta;
    if to < -1 {
        -1
    } else if to >= len {
        len - 1
    } else {
        to
    }
}

/// The position reached after `n` steps of `delta`.
pub open spec fn cycled_n(index: int, delta: int, len: int, n: nat) -> int
    decreases n,
{
    if n == 0 {
        index
    } else {
        cycled(cycled_n(index, delta, len, (n - 1) as nat), delta, len)
    }
}

/// Whether `line` holds nothing but white space.
pub fn line_is_blank(line: &str) -> (yes: bool)
    ensures
        yes == is_blank(line@),
{
    let chars = chars_of(line);
    let n = chars.len();
    let mut i: usize = 0;
    while i < n
        invariant
            n == chars@.len(),
            chars@ == line@,
            i <= n,
            forall|j: int| 0 <= j < i ==> is_white_space(#[trigger] line@[j]),
        decreases n - i,
    {
        if !char_is_white_space(chars[i]) {
            return false;
        }
        i = i + 1;
    }
    true
}

/// Keeps the lines that are not blank, in their order: the history as it is
/// read from its file.
pub fn load_history(lines: Vec<String>) -> (history: Vec<String>)
    ensures
        texts(history@) == non_blank(texts(lines@)),
{
    let mut history: Vec<String> = Vec::new();
    let n = lines.len();
    let mut i: usize = 0;
    proof {
        reveal(Seq::filter);
        assert(texts(lines@).take(0) =~= Seq::<Seq<char>>::empty());
        assert(texts(history@) =~= Seq::<Seq<char>>::empty());
    }
    while i < n
        invariant
            n == lines@.len(),
            i <= n,
            texts(history@) == non_blank(texts(lines@).take(i as int)),
        decreases n - i,
    {
        let ghost before = texts(lines@).take(i as int);
        let ghost kept = texts(history@);
        let blank = line_is_blank(lines[i].as_str());
        proof {
            assert(texts(lines@).take(i + 1) =~= before.push(lines@[i as int]@));
            before.lemma_filter_push(lines@[i as int]@, |l: Seq<char>| !is_blank(l));
        }
        if !blank {
            history.push(lines[i].clone());
            proof {
                assert(texts(history@) =~= kept.push(lines@[i as int]@));
            }
        }
        i = i + 1;
    }
    proof {
        assert(texts(lines@).take(n as int) =~= texts(lines@));
    }
    history
}

/// Where `cmd` first stands in `list`, if it stands there at all.
pub fn position_of(list: &Vec<String>, cmd: &String) -> (at: Option<usize>)
    ensures
        at is Some <==> texts(list@).contains(cmd@),
        match at {
            Some(k) => texts(list@).index_of_first(cmd@) == Some(k as int),
            None => texts(list@).index_of_first(cmd@) is None,
        },
{
    let ghost all = texts(list@);
    proof {
        all.index_of_first_ensures(cmd@);
    }
    let n = list.len();
    let mut i: usize = 0;
    while i < n
        invariant
            n == list@.len(),
            i <= n,
            all == texts(list@),
            forall|j: int| 0 <= j < i ==> all[j] != cmd@,
        decreases n - i,
    {
        assert(all[i as int] == list@[i as int]@);
        if list[i] == *cmd {
            proof {
                all.index_of_first_ensures(cmd@);
                assert(all.contains(cmd@));
                let first = all.index_of_first(cmd@)->0;
                if first < i {
                    assert(all[first] != cmd@);
                } else if first > i {
                    assert(all[i as int] == cmd@);
                }
            }
            return Some(i);
        }
        i = i + 1;
    }
    proof {
        all.index_of_first_ensures(cmd@);
        if all.contains(cmd@) {
            let j = choose|j: int| 0 <= j < all.len() && all[j] == cmd@;
            assert(all[j] != cmd@);
        }
    }
    None
}

/// Records that `cmd` was run: it moves to the front of the history, or
/// enters it there, and the history is cut to its cap.
pub fn save_history(history: &mut Vec<String>, cmd: &str)
    ensures
        texts(final(history)@) == saved(texts(old(history)@), cmd@),
{
    let entry: String = cmd.to_owned();
    let ghost list = texts(history@);
    match position_of(history, &entry) {
        Some(k) => {
            proof {
                list.index_of_first_ensures(cmd@);
            }
            let _ = history.remove(k);
            proof {
                assert(texts(history@) =~= list.remove(k as int));
            }
        },
        None => {},
    }
    let ghost rest = texts(history@);
    assert(rest == without_first(list, cmd@));
    history.insert(0, entry);
    proof {
        assert(texts(history@) =~= seq![cmd@] + rest);
    }
    if history.len() > HISTORY_CAP {
        let ghost grown = texts(history@);
        history.truncate(HISTORY_CAP);
        proof {
            assert(texts(history@) =~= grown.subrange(0, HISTORY_CAP as int));
        }
    }
}

/// Recording a command never leaves it twice in the history: a history
/// without repeats stays without repeats, holds the command in front, and is
/// no longer than the cap.
pub proof fn lemma_saved_keeps_entries_distinct(list: Seq<Seq<char>>, cmd: Seq<char>)
    requires
        list.no_duplicates(),
    ensures
        saved(list, cmd).no_duplicates(),
        saved(list, cmd).len() <= HISTORY_CAP,
        saved(list, cmd).len() >= 1,
        saved(list, cmd)[0] == cmd,
        forall|i: int| 1 <= i < saved(list, cmd).len() ==> saved(list, cmd)[i] != cmd,
{
    list.index_of_first_ensures(cmd);
    let rest = without_first(list, cmd);
    assert(rest.no_duplicates() && !rest.contains(cmd)) by {
        match list.index_of_first(cmd) {
            Some(k) => {
                assert forall|i: int, j: int| 0 <= i < j < rest.len() implies rest[i] != rest[j] by {
                    let a = if i < k { i } else { i + 1 };
                    let b = if j < k { j } else { j + 1 };
                    assert(rest[i] == list[a] && rest[j] == list[b]);
                }
                assert forall|i: int| 0 <= i < rest.len() implies rest[i] != cmd by {
                    let a = if i < k { i } else { i + 1 };
                    assert(rest[i] == list[a]);
                    assert(list[a] != list[k]);
                }
            },
            None => {},
        }
    }
    let grown = seq![cmd] + rest;
    assert forall|i: int, j: int| 0 <= i < j < grown.len() implies grown[i] != grown[j] by {
        if i == 0 {
            assert(grown[j] == rest[j - 1]);
            assert(rest.contains(rest[j - 1]));
        } else {
            assert(grown[i] == rest[i - 1] && grown[j] == rest[j - 1]);
        }
    }
    assert forall|i: int| 1 <= i < grown.len() implies grown[i] != cmd by {
        assert(grown[i] == rest[i - 1]);
        assert(rest.contains(rest[i - 1]));
    }
    assert(grown[0] == cmd);
}

/// Recording a command that leads the history already changes nothing.
pub proof fn lemma_saved_is_idempotent(list: Seq<Seq<char>>, cmd: Seq<char>)
    ensures
        saved(saved(list, cmd), cmd) == saved(list, cmd),
{
    let once = saved(list, cmd);
    once.index_of_first_ensures(cmd);
    assert(once[0] == cmd);
    assert(once.contains(cmd));
    let k = once.index_of_first(cmd)->0;
    assert(k == 0) by {
        if k > 0 {
            assert(once[0] != cmd);
        }
    }
    assert(seq![cmd] + once.remove(0) =~= once);
}

/// A step from a position within `-1 ..= len - 1` ends within it: stepping
/// never leaves the list, in either direction.
pub proof fn lemma_cycled_stays_in_range(index: int, delta: int, len: int)
    requires
        len >= 1,
    ensures
        -1 <= cycled(index, delta, len) <= len - 1,
{
}

/// However many steps are taken, the position stays within
/// `-1 ..= len - 1`.
pub proof fn lemma_cycled_n_stays_in_range(index: int, delta: int, len: int, n: nat)
    requires
        len >= 1,
        -1 <= index <= len - 1,
    ensures
        -1 <= cycled_n(index, delta, len, n) <= len - 1,
    decreases n,
{
    if n > 0 {
        lemma_cycled_n_stays_in_range(index, delta, len, (n - 1) as nat);
    }
}

/// Steps of `+1` climb one entry at a time and stop at the last entry:
/// after `n` of them the position is `min(index + n, len - 1)`.
pub proof fn lemma_stepping_forward_stops_at_last(index: int, len: int, n: nat)
    requires
        len >= 1,
        -1 <= index <= len - 1,
    ensures
        cycled_n(index, 1, len, n) == if index + n >= len {
            len - 1
        } else {
            index + n
        },
        n >= len ==> cycled_n(index, 1, len, n) == len - 1,
    decreases n,
{
    if n > 0 {
        lemma_stepping_forward_stops_at_last(index, len, (n - 1) as nat);
    }
}

/// Steps of `-1` descend one entry at a time and stop at `-1`, the text
/// under edit: after `n` of them the position is `max(index - n, -1)`.
pub proof fn lemma_stepping_back_stops_at_live_text(index: int, len: int, n: nat)
    requires
        len >= 1,
        -1 <= index <= len - 1,
    ensures
        cycled_n(index, -1, len, n) == if index - n < -1 {
            -1
        } else {
            index - n
        },
        n >= len ==> cycled_n(index, -1, len, n) == -1,
    decreases n,
{
    if n > 0 {
        lemma_stepping_back_stops_at_live_text(index, len, (n - 1) as nat);
    }
}

/// The input text and the state of stepping through the history.
///
/// `history_index` is the position in the active list whose text was last
/// written into the field; `None` stands for position -1, the text that the
/// user is editing.
#[derive(Debug, Clone, PartialEq, Eq)]
pub struct InputBridge {
    /// The text of the input field.
    pub input: String,
    /// Every command run, newest first.
    pub history: Vec<String>,
    /// The entries that match what was typed, when a filter is in force.
    pub filtered_history: Option<Vec<String>>,
    /// The completion offered past the caret; empty when there is none.
    pub prediction: String,
    pub history_index: Option<usize>,
    /// Who is writing into the field right now.
    pub origin: WriteOrigin,
}

/// The position that an index stands for: -1 for `None`.
pub open spec fn position(index: Option<usize>) -> int {
    match index {
        Some(i) => i as int,
        None => -1,
    }
}

impl InputBridge {
    /// The list that stepping goes through: the filtered one while a filter
    /// is in force, else the whole history.
    pub open spec fn active(self) -> Seq<Seq<char>> {
        match self.filtered_history {
            Some(f) => texts(f@),
            None => texts(self.history@),
        }
    }

    /// The texts of the whole history.
    pub open spec fn entries(self) -> Seq<Seq<char>> {
        texts(self.history@)
    }

    /// Whether the index points into the active list.
    pub open spec fn wf(self) -> bool {
        -1 <= position(self.history_index) < self.active().len()
    }

    /// The text that stands at `pos` of the active list; the empty text at -1.
    pub open spec fn text_at(self, pos: int) -> Seq<char> {
        if 0 <= pos < self.active().len() {
            self.active()[pos]
        } else {
            Seq::empty()
        }
    }

    /// An empty input over the given history.
    pub fn new(history: Vec<String>) -> (bridge: InputBridge)
        ensures
            bridge.history == history,
            bridge.input@ == Seq::<char>::empty(),
            bridge.filtered_history is None,
            bridge.prediction@ == Seq::<char>::empty(),
            bridge.history_index is None,
            bridge.origin == WriteOrigin::UserEdit,
            bridge.wf(),
    {
        InputBridge {
            input: String::new(),
            history,
            filtered_history: None,
            prediction: String::new(),
            history_index: None,
            origin: WriteOrigin::UserEdit,
        }
    }

    /// Whether nothing has been typed.
    pub fn is_input_empty(&self) -> (empty: bool)
        ensures
            empty == (self.input@.len() == 0),
    {
        self.input.as_str().is_empty()
    }

    /// How many entries the active list holds.
    pub fn active_len(&self) -> (n: usize)
        ensures
            n == self.active().len(),
    {
        match &self.filtered_history {
            Some(f) => f.len(),
            None => self.history.len(),
        }
    }

    /// The field reported a change of its text. An edit by the user returns
    /// the index to the text under edit; the echo of a write that the
    /// application made itself leaves the index where it is.
    pub fn on_edit_changed(&mut self, text: String)
        ensures
            final(self).input@ == text@,
            final(self).history_index == if old(self).origin == WriteOrigin::UserEdit {
                None
            } else {
                old(self).history_index
            },
            final(self).origin == old(self).origin,
            final(self).history == old(self).history,
            final(self).filtered_history == old(self).filtered_history,
            final(self).prediction == old(self).prediction,
    {
        if self.origin == WriteOrigin::UserEdit {
            self.history_index = None;
        }
        self.input = text;
    }

    /// The write that the application made into the field is over: changes
    /// of the text count as the user's again.
    pub fn finish_write(&mut self)
        ensures
            *final(self) == (InputBridge { origin: WriteOrigin::UserEdit, ..*old(self) }),
    {
        self.origin = WriteOrigin::UserEdit;
    }

    /// Takes the offered completion as the input. Returns whether there was
    /// one; if so the host writes `input` into the field and then calls
    /// `finish_write`.
    pub fn accept_prediction(&mut self) -> (wrote: bool)
        ensures
            wrote == (old(self).prediction@.len() > 0),
            completed(*old(self), *final(self)),
            !wrote ==> *final(self) == *old(self),
            wrote ==> {
                &&& final(self).input@ == old(self).prediction@
                &&& final(self).prediction@.len() == 0
                &&& final(self).filtered_history is None
                &&& final(self).origin == WriteOrigin::ProgrammaticWrite
                &&& final(self).history == old(self).history
                &&& final(self).history_index == old(self).history_index
            },
    {
        if self.prediction.as_str().is_empty() {
            return false;
        }
        self.input = self.prediction.clone();
        self.prediction = String::new();
        self.filtered_history = None;
        self.origin = WriteOrigin::ProgrammaticWrite;
        true
    }

    /// Forgets every command and returns the index to the text under edit.
    pub fn clear_history(&mut self)
        ensures
            final(self).history@.len() == 0,
            final(self).history_index is None,
            final(self).input == old(self).input,
            final(self).filtered_history == old(self).filtered_history,
            final(self).prediction == old(self).prediction,
            final(self).origin == old(self).origin,
    {
        self.history = Vec::new();
        self.history_index = None;
    }

    /// Makes the newest command the input. Returns whether the history held
    /// one; if so the host writes `input` into the field.
    pub fn recall_latest(&mut self) -> (wrote: bool)
        ensures
            wrote == (old(self).history@.len() > 0),
            !wrote ==> *final(self) == *old(self),
            wrote ==> final(self).input@ == old(self).entries()[0],
            wrote ==> *final(self) == (InputBridge { input: final(self).input, ..*old(self) }),
    {
        if self.history.len() == 0 {
            return false;
        }
        assert(self.entries()[0] == self.history@[0]@);
        self.input = self.history[0].clone();
        true
    }

    /// Makes entry `at` of the whole history the input. Returns whether there
    /// is such an entry; if so the host writes `input` into the field.
    pub fn recall(&mut self, at: usize) -> (wrote: bool)
        ensures
            wrote == (at < old(self).history@.len()),
            !wrote ==> *final(self) == *old(self),
            wrote ==> final(self).input@ == old(self).entries()[at as int],
            wrote ==> *final(self) == (InputBridge { input: final(self).input, ..*old(self) }),
    {
        if at >= self.history.len() {
            return false;
        }
        assert(self.entries()[at as int] == self.history@[at as int]@);
        self.input = self.history[at].clone();
        true
    }

    /// Records the input as run, unless it is empty. Returns whether the
    /// history changed, and so must be written out.
    pub fn commit_input(&mut self) -> (saved_it: bool)
        ensures
            saved_it == (old(self).input@.len() > 0),
            !saved_it ==> *final(self) == *old(self),
            saved_it ==> final(self).entries() == saved(old(self).entries(), old(self).input@),
            final(self).input == old(self).input,
            final(self).filtered_history == old(self).filtered_history,
            final(self).prediction == old(self).prediction,
            final(self).history_index == old(self).history_index,
            final(self).origin == old(self).origin,
    {
        if self.input.as_str().is_empty() {
            return false;
        }
        save_history(&mut self.history, self.input.as_str());
        true
    }
}

/// The bridge after a step of `delta` through its active list: with an
/// empty list nothing changes; else the index moves by `delta` within the
/// list, the entry reached becomes the input (the empty text at -1), the
/// completion is withdrawn, and the write is marked as the application's own.
pub open spec fn stepped(pre: InputBridge, post: InputBridge, delta: int) -> bool {
    if pre.active().len() == 0 {
        post == pre
    } else {
        &&& position(post.history_index) == cycled(
            position(pre.history_index),
            delta,
            pre.active().len() as int,
        )
        &&& post.input@ == pre.text_at(position(post.history_index))
        &&& post.origin == WriteOrigin::ProgrammaticWrite
        &&& post.prediction@.len() == 0
        &&& post.history == pre.history
        &&& post.filtered_history == pre.filtered_history
    }
}

/// The bridge after the offered completion was taken: without one nothing
/// changes; else it becomes the input, the filter is lifted, and the write is
/// marked as the application's own.
pub open spec fn completed(pre: InputBridge, post: InputBridge) -> bool {
    if pre.prediction@.len() == 0 {
        post == pre
    } else {
        &&& post.input@ == pre.prediction@
        &&& post.prediction@.len() == 0
        &&& post.filtered_history is None
        &&& post.origin == WriteOrigin::ProgrammaticWrite
        &&& post.history == pre.history
        &&& post.history_index == pre.history_index
    }
}

/// Steps through the active list by `delta` and makes the entry reached the
/// input; position -1 gives the empty text. Returns whether anything was
/// done: with an empty list nothing is. After a step the host writes `input`
/// into the field, selects it all, and calls `finish_write`; until then the
/// field's change notices count as the application's own.
pub fn cycle_history(bridge: &mut InputBridge, delta: isize) -> (wrote: bool)
    ensures
        wrote == (old(bridge).active().len() > 0),
        stepped(*old(bridge), *final(bridge), delta as int),
        !wrote ==> *final(bridge) == *old(bridge),
        wrote ==> {
            &&& position(final(bridge).history_index) == cycled(
                position(old(bridge).history_index),
                delta as int,
                old(bridge).active().len() as int,
            )
            &&& final(bridge).input@ == old(bridge).text_at(position(final(bridge).history_index))
            &&& final(bridge).origin == WriteOrigin::ProgrammaticWrite
            &&& final(bridge).prediction@.len() == 0
            &&& final(bridge).history == old(bridge).history
            &&& final(bridge).filtered_history == old(bridge).filtered_history
            &&& final(bridge).wf()
        },
{
    let len = bridge.active_len();
    if len == 0 {
        return false;
    }
    let from: i128 = match bridge.history_index {
        Some(i) => i as i128,
        None => -1,
    };
    let to: i128 = from + delta as i128;
    let index: Option<usize> = if to < 0 {
        None
    } else if to >= len as i128 {
        Some(len - 1)
    } else {
        Some(to as usize)
    };
    let text = match index {
        None => String::new(),
        Some(i) => match &bridge.filtered_history {
            Some(f) => {
                assert(texts(f@)[i as int] == f@[i as int]@);
                f[i].clone()
            },
            None => {
                assert(texts(bridge.history@)[i as int] == bridge.history@[i as int]@);
                bridge.history[i].clone()
            },
        },
    };
    bridge.history_index = index;
    bridge.input = text;
    bridge.origin = WriteOrigin::ProgrammaticWrite;
    bridge.prediction = String::new();
    true
}

} // verus!
