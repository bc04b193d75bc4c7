//! Translate Android's whole-field IME snapshots into composition events.
//!
//! Android reports the complete text of the edited field together with a
//! selection and an optional composing region, both measured in UTF-16 code
//! units. `ImeState` remembers what it has already reported and turns each
//! snapshot into the preedit, deletion and commit events that bring a
//! consumer up to date.
use vstd::prelude::*;
use vstd::string::StrSliceExecFns;

use crate::text::chars_of;
use crate::text::char_utf8_width;
use crate::text::lemma_prefix_monotone;
use crate::text::lemma_prefix_step;
use crate::text::lemma_take_skip_len;
use crate::text::utf16_boundary;
use crate::text::utf16_byte_offset;
use crate::text::utf16_char_index;
use crate::text::utf8_len;
use crate::text::utf16_len;
use crate::text::is_utf16_boundary;
use crate::text::lemma_utf8_len_concat;
use crate::text::lemma_utf16_len_concat;

verus! {

/// A span of text in UTF-16 code units, `start` inclusive and `end` exclusive.
#[derive(Clone, Copy, Debug, PartialEq, Eq, Structural)]
pub struct TextSpan {
    pub start: usize,
    pub end: usize,
}

/// A snapshot of the edited field as the input method reports it.
#[derive(Clone, Debug)]
pub struct TextInputState {
    pub text: String,
    /// The selection; a cursor when `start == end`.
    pub selection: TextSpan,
    /// The region that the input method is still composing, if any.
    pub compose_region: Option<TextSpan>,
}

impl Default for TextInputState {
    fn default() -> (r: Self)
        ensures
            r.text@ == Seq::<char>::empty(),
            r.selection == (TextSpan { start: 0, end: 0 }),
            r.compose_region is None,
    {
        TextInputState {
            text: String::new(),
            selection: TextSpan { start: 0, end: 0 },
            compose_region: None,
        }
    }
}

/// The action button of a soft keyboard.
#[derive(Clone, Copy, Debug, PartialEq, Eq, Structural)]
pub enum TextInputAction {
    /// The receiver decides what to do.
    Unspecified,
    /// No action; the receiver may treat it as an Enter key.
    NoAction,
    /// Go to the entered location.
    Go,
    /// Search for the entered text.
    Search,
    /// Send the entered text.
    Send,
    /// Move to the next input field.
    Next,
    /// The input is done.
    Done,
    /// Move to the previous input field.
    Previous,
    /// An action code that has no name here.
    Unknown(i32),
}

/// The key that an editor action stands for.
#[derive(Clone, Copy, Debug, PartialEq, Eq, Structural)]
pub enum EditorActionKey {
    Enter,
    Tab { reverse: bool },
}

/// The key that an editor action stands for: field navigation becomes Tab
/// (backwards for `Previous`), every accepting action becomes Enter.
pub open spec fn editor_action_key(action: TextInputAction) -> Option<EditorActionKey> {
    match action {
        TextInputAction::Next => Some(EditorActionKey::Tab { reverse: false }),
        TextInputAction::Previous => Some(EditorActionKey::Tab { reverse: true }),
        TextInputAction::Unknown(_) => None,
        _ => Some(EditorActionKey::Enter),
    }
}

impl EditorActionKey {
    pub fn from_android(action: TextInputAction) -> (r: Option<Self>)
        ensures
            r == editor_action_key(action),
    {
        match action {
            TextInputAction::Next => Some(EditorActionKey::Tab { reverse: false }),
            TextInputAction::Previous => Some(EditorActionKey::Tab { reverse: true }),
            TextInputAction::Unspecified
            | TextInputAction::NoAction
            | TextInputAction::Go
            | TextInputAction::Search
            | TextInputAction::Send
            | TextInputAction::Done => Some(EditorActionKey::Enter),
            TextInputAction::Unknown(_) => Option::None,
        }
    }
}

/// A composition event for the application.
#[derive(Clone, Debug, PartialEq, Eq)]
pub enum Ime {
    /// The text being composed, with the selection inside it as UTF-8 byte
    /// offsets; an empty text with no selection hides the preedit.
    Preedit(String, Option<(usize, usize)>),
    /// Text to insert at the cursor.
    Commit(String),
    /// Delete this many bytes before and after the cursor.
    DeleteSurrounding { before_bytes: usize, after_bytes: usize },
}

/// What an `Ime` event says, with its texts as character sequences.
pub enum ImeView {
    Preedit(Seq<char>, Option<(usize, usize)>),
    Commit(Seq<char>),
    DeleteSurrounding { before_bytes: nat, after_bytes: nat },
}

impl View for Ime {
    type V = ImeView;

    open spec fn view(&self) -> ImeView {
        match self {
            Ime::Preedit(text, cursor) => ImeView::Preedit(text@, *cursor),
            Ime::Commit(text) => ImeView::Commit(text@),
            Ime::DeleteSurrounding { before_bytes, after_bytes } => ImeView::DeleteSurrounding {
                before_bytes: *before_bytes as nat,
                after_bytes: *after_bytes as nat,
            },
        }
    }
}

/// The views of a sequence of events.
pub open spec fn event_views(events: Seq<Ime>) -> Seq<ImeView> {
    events.map_values(|e: Ime| e@)
}

/// What `ImeState` has reported: the accepted text, the preedit and its
/// selection, and the snapshot that is still being composed.
pub struct ImeModel {
    pub committed: Seq<char>,
    pub preedit: Seq<char>,
    pub cursor: Option<(usize, usize)>,
    pub composing_text: Option<Seq<char>>,
}

/// The state before anything was reported.
pub open spec fn initial_model() -> ImeModel {
    ImeModel {
        committed: Seq::empty(),
        preedit: Seq::empty(),
        cursor: None,
        composing_text: None,
    }
}

/// `x` limited to the range from `lo` to `hi`.
pub open spec fn clamp(x: int, lo: int, hi: int) -> int {
    if x < lo {
        lo
    } else if x > hi {
        hi
    } else {
        x
    }
}

/// The byte offset of a UTF-16 position in `text`, or `fallback` when the
/// position is not a character boundary of the text.
pub open spec fn byte_offset_or(text: Seq<char>, offset: int, fallback: int) -> int {
    match utf16_byte_offset(text, offset) {
        Some(b) => b,
        None => fallback,
    }
}

/// The preedit that a composing snapshot shows and the selection inside
/// it, as byte offsets relative to the preedit and clamped to it; `None`
/// when the composing region does not lie on character boundaries of the
/// text or ends before it starts. A selection end that is not a boundary
/// counts as the end of the region.
pub open spec fn composition(text: Seq<char>, selection: TextSpan, region: TextSpan) -> Option<
    (Seq<char>, (usize, usize)),
> {
    match utf16_char_index(text, region.start as int) {
        Some(ks) => match utf16_char_index(text, region.end as int) {
            Some(ke) => {
                let start = utf8_len(text.take(ks)) as int;
                let end = utf8_len(text.take(ke)) as int;
                if start <= end {
                    let cs = clamp(byte_offset_or(text, selection.start as int, end), start, end)
                        - start;
                    let ce = clamp(byte_offset_or(text, selection.end as int, end), start, end)
                        - start;
                    Some((text.subrange(ks, ke), (cs as usize, ce as usize)))
                } else {
                    None
                }
            },
            None => None,
        },
        None => None,
    }
}

/// `p` is the length of the longest common prefix of `a` and `b`.
pub open spec fn is_shared_prefix_len(a: Seq<char>, b: Seq<char>, p: int) -> bool {
    &&& 0 <= p <= a.len()
    &&& p <= b.len()
    &&& forall|i: int| 0 <= i < p ==> a[i] == b[i]
    &&& (p == a.len() || p == b.len() || a[p] != b[p])
}

/// The number of leading characters that `a` and `b` share.
pub open spec fn shared_prefix_len(a: Seq<char>, b: Seq<char>) -> int {
    choose|p: int| is_shared_prefix_len(a, b, p)
}

/// Shows `preedit` with `cursor`, unless that is what is shown already.
pub open spec fn show_preedit(m: ImeModel, preedit: Seq<char>, cursor: Option<(usize, usize)>) -> (
    ImeModel,
    Seq<ImeView>,
) {
    if preedit != m.preedit || cursor != m.cursor {
        (
            ImeModel { committed: m.committed, preedit, cursor, composing_text: m.composing_text },
            seq![ImeView::Preedit(preedit, cursor)],
        )
    } else {
        (m, Seq::empty())
    }
}

/// Accepts `text` as the new content of the field: hides the preedit,
/// deletes the bytes of the old accepted text after the prefix both share
/// (no deletion when there are none), and commits the rest of `text`.
pub open spec fn accept_text(m: ImeModel, text: Seq<char>) -> (ImeModel, Seq<ImeView>) {
    let p = shared_prefix_len(m.committed, text);
    let removed = utf8_len(m.committed.skip(p));
    let deletion = if removed != 0 {
        seq![ImeView::DeleteSurrounding { before_bytes: removed, after_bytes: 0 }]
    } else {
        Seq::empty()
    };
    (
        ImeModel {
            committed: text,
            preedit: Seq::empty(),
            cursor: None,
            composing_text: m.composing_text,
        },
        seq![ImeView::Preedit(Seq::empty(), None)] + deletion + seq![ImeView::Commit(text.skip(p))],
    )
}

/// The state and events after the snapshot (`text`, `selection`, `region`).
///
/// A composing snapshot only updates the preedit: it is not an accepted
/// edit, so already accepted text is never deleted for it. A snapshot
/// without a composing region accepts its whole text when that differs from
/// the accepted one, and otherwise just hides the preedit.
pub open spec fn update_model(
    m: ImeModel,
    text: Seq<char>,
    selection: TextSpan,
    region: Option<TextSpan>,
) -> (ImeModel, Seq<ImeView>) {
    match region {
        Some(r) => match composition(text, selection, r) {
            Some((preedit, cursor)) => show_preedit(
                ImeModel {
                    committed: m.committed,
                    preedit: m.preedit,
                    cursor: m.cursor,
                    composing_text: Some(text),
                },
                preedit,
                Some(cursor),
            ),
            None => (m, Seq::empty()),
        },
        None => {
            let m1 = ImeModel {
                committed: m.committed,
                preedit: m.preedit,
                cursor: m.cursor,
                composing_text: None,
            };
            if text != m.committed {
                accept_text(m1, text)
            } else {
                show_preedit(m1, Seq::empty(), None)
            }
        },
    }
}

/// The events that finishing the composition reports: the composing text,
/// if any, is accepted as if the input method had sent it without a
/// composing region.
pub open spec fn finish_events(m: ImeModel) -> Seq<ImeView> {
    match m.composing_text {
        Some(text) => update_model(
            ImeModel {
                committed: m.committed,
                preedit: m.preedit,
                cursor: m.cursor,
                composing_text: None,
            },
            text,
            TextSpan { start: 0, end: 0 },
            None,
        ).1,
        None => Seq::empty(),
    }
}

/// The shared prefix of two texts exists and is unique.
pub proof fn lemma_shared_prefix_len(a: Seq<char>, b: Seq<char>, p: int)
    requires
        is_shared_prefix_len(a, b, p),
    ensures
        shared_prefix_len(a, b) == p,
{
    let q = choose|q: int| is_shared_prefix_len(a, b, q);
    assert(is_shared_prefix_len(a, b, q));
    if q < p {
        assert(a[q] == b[q]);
    } else if p < q {
        assert(a[p] == b[p]);
    }
}

/// A composing snapshot is not an accepted edit: it leaves the accepted
/// text as it is and reports nothing but preedit changes, so text that
/// Android reopens for composition is never deleted before it is committed.
pub proof fn law_composing_snapshot_keeps_accepted_text(
    m: ImeModel,
    text: Seq<char>,
    selection: TextSpan,
    region: TextSpan,
)
    ensures
        update_model(m, text, selection, Some(region)).0.committed == m.committed,
        forall|i: int|
            0 <= i < update_model(m, text, selection, Some(region)).1.len() ==> (
            #[trigger] update_model(m, text, selection, Some(region)).1[i]) is Preedit,
{
}

/// Replaying a snapshot reports nothing and changes nothing: a composition
/// is shown once and accepted text is never committed twice.
pub proof fn law_replayed_snapshot_is_silent(
    m: ImeModel,
    text: Seq<char>,
    selection: TextSpan,
    region: Option<TextSpan>,
)
    ensures
        update_model(update_model(m, text, selection, region).0, text, selection, region) == (
        update_model(m, text, selection, region).0,
        Seq::<ImeView>::empty(),
        ),
{
}

/// The bytes that the events of an accepted edit ask to delete.
pub open spec fn deleted_bytes(events: Seq<ImeView>) -> nat {
    if events.len() > 1 && events[1] is DeleteSurrounding {
        events[1]->before_bytes
    } else {
        0
    }
}

/// The text that the last event commits.
pub open spec fn committed_text(events: Seq<ImeView>) -> Seq<char> {
    events.last()->Commit_0
}

/// When a snapshot without composition changes the accepted text, its
/// events form one transaction that turns the old accepted text into the
/// new one: deleting the reported bytes before the cursor (at the end of
/// the old text) and inserting the committed text gives exactly the new
/// text, and the state then holds the new text as accepted.
pub proof fn law_accepted_edit_rebuilds_text(m: ImeModel, text: Seq<char>, selection: TextSpan)
    requires
        text != m.committed,
    ensures
        ({
            let (m1, events) = update_model(m, text, selection, None);
            &&& m1.committed == text
            &&& events.last() is Commit
            &&& exists|k: int|
                0 <= k <= m.committed.len() && utf8_len(m.committed.skip(k)) == deleted_bytes(events)
                    && m.committed.take(k) + committed_text(events) == text
        }),
{
    let events = update_model(m, text, selection, None).1;
    lemma_shared_prefix_exists(m.committed, text, 0);
    let p = choose|p: int| is_shared_prefix_len(m.committed, text, p);
    lemma_shared_prefix_len(m.committed, text, p);
    assert(m.committed.take(p) =~= text.take(p));
    assert(text.take(p) + text.skip(p) =~= text);
    assert(deleted_bytes(events) == utf8_len(m.committed.skip(p)));
}

/// After finishing, the state is the initial one, and an empty snapshot
/// (as the next input context starts) reports nothing.
pub proof fn law_finished_context_starts_empty()
    ensures
        update_model(initial_model(), Seq::empty(), TextSpan { start: 0, end: 0 }, None) == (
        initial_model(),
        Seq::<ImeView>::empty(),
        ),
{
}

/// The selection that a composing snapshot reports lies inside its preedit:
/// both offsets are at most the preedit's length in bytes.
pub proof fn law_preedit_cursor_within_preedit(
    text: Seq<char>,
    selection: TextSpan,
    region: TextSpan,
)
    ensures
        composition(text, selection, region) matches Some((preedit, (cs, ce))) ==> cs
            <= utf8_len(preedit) && ce <= utf8_len(preedit),
{
    if let Some((preedit, (cs, ce))) = composition(text, selection, region) {
        let ks = utf16_char_index(text, region.start as int)->0;
        let ke = utf16_char_index(text, region.end as int)->0;
        if ke < ks {
            lemma_prefix_monotone(text, ke, ks);
        }
        assert(text.take(ke) =~= text.take(ks) + text.subrange(ks, ke));
        crate::text::lemma_utf8_len_concat(text.take(ks), text.subrange(ks, ke));
    }
}

/// Two texts that agree on their first `p` characters have a longest
/// common prefix.
pub proof fn lemma_shared_prefix_exists(a: Seq<char>, b: Seq<char>, p: int)
    requires
        0 <= p <= a.len(),
        p <= b.len(),
        forall|i: int| 0 <= i < p ==> a[i] == b[i],
    ensures
        exists|q: int| is_shared_prefix_len(a, b, q),
    decreases a.len() - p,
{
    if p < a.len() && p < b.len() && a[p] == b[p] {
        lemma_shared_prefix_exists(a, b, p + 1);
    } else {
        assert(is_shared_prefix_len(a, b, p));
    }
}

/// `k` characters of `t` stay when its last `n` bytes are deleted.
pub open spec fn keeps_after_deleting(t: Seq<char>, n: nat, k: int) -> bool {
    0 <= k <= t.len() && utf8_len(t.skip(k)) == n
}

/// `t` without its last `n` bytes, when they end on a character boundary;
/// `t` itself otherwise.
pub open spec fn delete_trailing_bytes(t: Seq<char>, n: nat) -> Seq<char> {
    if exists|k: int| keeps_after_deleting(t, n, k) {
        t.take(choose|k: int| keeps_after_deleting(t, n, k))
    } else {
        t
    }
}

/// What a consumer's text becomes when it applies `events` in order with
/// its cursor at the end: a deletion removes bytes before the cursor, a
/// commit appends its text, a preedit changes no text.
pub open spec fn apply_events(t: Seq<char>, events: Seq<ImeView>) -> Seq<char>
    decreases events.len(),
{
    if events.len() == 0 {
        t
    } else {
        let t1 = match events[0] {
            ImeView::DeleteSurrounding { before_bytes, .. } => delete_trailing_bytes(t, before_bytes),
            ImeView::Commit(c) => t + c,
            ImeView::Preedit(..) => t,
        };
        apply_events(t1, events.drop_first())
    }
}

/// How many of `events` commit text.
pub open spec fn commit_count(events: Seq<ImeView>) -> nat
    decreases events.len(),
{
    if events.len() == 0 {
        0
    } else {
        (if events[0] is Commit {
            1nat
        } else {
            0nat
        }) + commit_count(events.drop_first())
    }
}

/// How many of `events` delete text.
pub open spec fn deletion_count(events: Seq<ImeView>) -> nat
    decreases events.len(),
{
    if events.len() == 0 {
        0
    } else {
        (if events[0] is DeleteSurrounding {
            1nat
        } else {
            0nat
        }) + deletion_count(events.drop_first())
    }
}

/// The text that `events` commit, in order.
pub open spec fn all_commits(events: Seq<ImeView>) -> Seq<char>
    decreases events.len(),
{
    if events.len() == 0 {
        Seq::empty()
    } else {
        (match events[0] {
            ImeView::Commit(c) => c,
            _ => Seq::empty(),
        }) + all_commits(events.drop_first())
    }
}

/// The bytes that `events` delete before the cursor, in all.
pub open spec fn all_deletions(events: Seq<ImeView>) -> nat
    decreases events.len(),
{
    if events.len() == 0 {
        0
    } else {
        (match events[0] {
            ImeView::DeleteSurrounding { before_bytes, .. } => before_bytes,
            _ => 0nat,
        }) + all_deletions(events.drop_first())
    }
}

/// Whether `events` show an empty preedit with no selection somewhere.
pub open spec fn hides_preedit(events: Seq<ImeView>) -> bool {
    exists|i: int| 0 <= i < events.len() && events[i] == ImeView::Preedit(Seq::empty(), None)
}

/// Every preedit event among `events` hides the preedit.
pub open spec fn only_hiding_preedits(events: Seq<ImeView>) -> bool {
    forall|i: int|
        0 <= i < events.len() && (#[trigger] events[i]) is Preedit ==> events[i]
            == ImeView::Preedit(Seq::empty(), None)
}

/// Deleting the trailing bytes of `t` after its first `k` characters keeps
/// exactly those characters.
proof fn lemma_delete_trailing_bytes(t: Seq<char>, k: int)
    requires
        0 <= k <= t.len(),
    ensures
        delete_trailing_bytes(t, utf8_len(t.skip(k))) == t.take(k),
{
    let n = utf8_len(t.skip(k));
    assert(keeps_after_deleting(t, n, k));
    let c = choose|j: int| keeps_after_deleting(t, n, j);
    lemma_take_skip_len(t, k);
    lemma_take_skip_len(t, c);
    if c < k {
        lemma_prefix_monotone(t, c, k);
    } else if k < c {
        lemma_prefix_monotone(t, k, c);
    }
}

/// The events of at most one preedit change no text and commit nothing.
proof fn lemma_preedit_only_events(t: Seq<char>, events: Seq<ImeView>)
    requires
        events.len() == 0 || (events.len() == 1 && events[0] is Preedit),
    ensures
        apply_events(t, events) == t,
        commit_count(events) == 0,
        deletion_count(events) == 0,
        all_commits(events) == Seq::<char>::empty(),
        all_deletions(events) == 0,
{
    reveal_with_fuel(apply_events, 2);
    reveal_with_fuel(commit_count, 2);
    reveal_with_fuel(deletion_count, 2);
    reveal_with_fuel(all_commits, 2);
    reveal_with_fuel(all_deletions, 2);
    if events.len() == 1 {
        assert(events.drop_first() =~= Seq::<ImeView>::empty());
        assert(all_commits(events) =~= Seq::<char>::empty() + Seq::<char>::empty());
    }
}

/// What the events of an accepted edit do: they hide the preedit, delete
/// at most once and commit exactly once, and applied to the old accepted
/// text they give the new text, having deleted only what differs.
proof fn lemma_accept_text_events(m: ImeModel, text: Seq<char>)
    requires
        text != m.committed,
    ensures
        ({
            let events = accept_text(m, text).1;
            let p = shared_prefix_len(m.committed, text);
            &&& apply_events(m.committed, events) == text
            &&& commit_count(events) == 1
            &&& deletion_count(events) <= 1
            &&& all_commits(events) == text.skip(p)
            &&& all_deletions(events) == utf8_len(m.committed.skip(p))
            &&& events[0] == ImeView::Preedit(Seq::empty(), None)
            &&& only_hiding_preedits(events)
            &&& is_shared_prefix_len(m.committed, text, p)
        }),
{
    reveal_with_fuel(apply_events, 4);
    reveal_with_fuel(commit_count, 4);
    reveal_with_fuel(deletion_count, 4);
    reveal_with_fuel(all_commits, 4);
    reveal_with_fuel(all_deletions, 4);
    lemma_shared_prefix_exists(m.committed, text, 0);
    let p = choose|q: int| is_shared_prefix_len(m.committed, text, q);
    lemma_shared_prefix_len(m.committed, text, p);
    let removed = utf8_len(m.committed.skip(p));
    let rest = text.skip(p);
    let events = accept_text(m, text).1;
    let hide = ImeView::Preedit(Seq::empty(), None);
    let del = ImeView::DeleteSurrounding { before_bytes: removed, after_bytes: 0 };
    let commit = ImeView::Commit(rest);
    assert(m.committed.take(p) =~= text.take(p));
    assert(text.take(p) + rest =~= text);
    lemma_delete_trailing_bytes(m.committed, p);
    let tail = seq![commit];
    assert(tail.drop_first() =~= Seq::<ImeView>::empty());
    assert(all_commits(tail) =~= rest + Seq::<char>::empty());
    if removed != 0 {
        assert(events =~= seq![hide, del, commit]);
        assert(events.drop_first() =~= seq![del, commit]);
        assert(events.drop_first().drop_first() =~= tail);
        assert(all_commits(events.drop_first()) =~= Seq::<char>::empty() + rest);
        assert(all_commits(events) =~= Seq::<char>::empty() + rest);
    } else {
        assert(m.committed.skip(p).len() == 0) by {
            if m.committed.skip(p).len() > 0 {
                let s = m.committed.skip(p);
                lemma_prefix_monotone(s, 0, 1);
                lemma_take_skip_len(s, 1);
            }
        }
        assert(m.committed.take(p) =~= m.committed);
        assert(events =~= seq![hide, commit]);
        assert(events.drop_first() =~= tail);
        assert(all_commits(events) =~= Seq::<char>::empty() + rest);
    }
}

/// Applying the events of any snapshot to the accepted text gives the new
/// accepted text: a snapshot without composition makes its whole text the
/// accepted one, through exactly one commit and at most one deletion when
/// the text changed (and no commit and no deletion when it did not), and
/// the deletion removes only the part of the old text after the longest
/// prefix that both texts share, so that nothing accepted is inserted
/// twice. A composing snapshot changes no accepted text.
pub proof fn law_events_rebuild_accepted_text(
    m: ImeModel,
    text: Seq<char>,
    selection: TextSpan,
    region: Option<TextSpan>,
)
    ensures
        ({
            let (m1, events) = update_model(m, text, selection, region);
            &&& apply_events(m.committed, events) == m1.committed
            &&& m1.committed == (if region is None {
                text
            } else {
                m.committed
            })
            &&& commit_count(events) == (if region is None && text != m.committed {
                1nat
            } else {
                0nat
            })
            &&& deletion_count(events) <= 1
            &&& exists|k: int|
                #![trigger m.committed.take(k)]
                0 <= k <= m.committed.len() && m.committed.take(k) + all_commits(events)
                    == m1.committed && utf8_len(m.committed.skip(k)) == all_deletions(events)
                    && (k == m.committed.len() || all_commits(events).len() == 0
                    || m.committed[k] != all_commits(events)[0])
        }),
{
    let (m1, events) = update_model(m, text, selection, region);
    if region is None && text != m.committed {
        lemma_accept_text_events(
            ImeModel {
                committed: m.committed,
                preedit: m.preedit,
                cursor: m.cursor,
                composing_text: None,
            },
            text,
        );
        let p = shared_prefix_len(m.committed, text);
        assert(m.committed.take(p) + text.skip(p) =~= text);
        if p < m.committed.len() && text.skip(p).len() > 0 {
            assert(text.skip(p)[0] == text[p]);
        }
    } else {
        lemma_preedit_only_events(m.committed, events);
        let k = m.committed.len() as int;
        assert(m.committed.take(k) + all_commits(events) =~= m.committed);
        assert(m.committed.skip(k) =~= Seq::<char>::empty());
        assert(utf8_len(Seq::<char>::empty()) == 0);
    }
}

/// After a snapshot without composition the preedit is hidden and has no
/// selection; it is reported hidden exactly when the accepted text changed
/// or something was shown, and no other preedit is reported.
pub proof fn law_plain_snapshot_hides_preedit(m: ImeModel, text: Seq<char>, selection: TextSpan)
    ensures
        ({
            let (m1, events) = update_model(m, text, selection, None);
            &&& m1.preedit == Seq::<char>::empty()
            &&& m1.cursor is None
            &&& m1.composing_text is None
            &&& only_hiding_preedits(events)
            &&& hides_preedit(events) <==> (text != m.committed || m.preedit != Seq::<char>::empty()
                || m.cursor is Some)
        }),
{
    let (m1, events) = update_model(m, text, selection, None);
    let hide = ImeView::Preedit(Seq::empty(), None);
    if text != m.committed {
        lemma_accept_text_events(
            ImeModel {
                committed: m.committed,
                preedit: m.preedit,
                cursor: m.cursor,
                composing_text: None,
            },
            text,
        );
        assert(events[0] == hide);
    } else if m.preedit != Seq::<char>::empty() || m.cursor is Some {
        assert(events[0] == hide);
    } else {
        assert(events =~= Seq::<ImeView>::empty());
    }
}

/// Finishing accepts the composing text against the accepted text:
/// applying its events to the accepted text gives exactly the composing
/// text (the accepted text itself when nothing is being composed), with
/// one commit at most, so no accepted text is committed twice.
pub proof fn law_finish_accepts_composing_text(m: ImeModel)
    ensures
        apply_events(m.committed, finish_events(m)) == (match m.composing_text {
            Some(t) => t,
            None => m.committed,
        }),
        commit_count(finish_events(m)) <= 1,
        deletion_count(finish_events(m)) <= 1,
{
    match m.composing_text {
        Some(t) => {
            law_events_rebuild_accepted_text(
                ImeModel {
                    committed: m.committed,
                    preedit: m.preedit,
                    cursor: m.cursor,
                    composing_text: None,
                },
                t,
                TextSpan { start: 0, end: 0 },
                None,
            );
        },
        None => {
            lemma_preedit_only_events(m.committed, finish_events(m));
        },
    }
}

/// A valid composing snapshot records the whole text of the field as
/// being composed, so that finishing afterwards turns the accepted text
/// into exactly that field text: text accepted before the composition
/// started is neither deleted nor committed again.
pub proof fn law_finish_after_composing_yields_field(
    m: ImeModel,
    text: Seq<char>,
    selection: TextSpan,
    region: TextSpan,
)
    requires
        composition(text, selection, region) is Some,
    ensures
        update_model(m, text, selection, Some(region)).0.composing_text == Some(text),
        update_model(m, text, selection, Some(region)).0.committed == m.committed,
        apply_events(m.committed, finish_events(update_model(m, text, selection, Some(region)).0))
            == text,
{
    law_finish_accepts_composing_text(update_model(m, text, selection, Some(region)).0);
}

/// Where a selection offset lands in the preedit `preedit` of the composing
/// region `region` of `text`: an offset on a character boundary inside the
/// region lands at the byte of the preedit that lies the same number of
/// UTF-16 units into it; a boundary before the region lands at the start
/// of the preedit; any other offset lands at its end.
pub open spec fn lands_at(
    text: Seq<char>,
    region: TextSpan,
    preedit: Seq<char>,
    offset: usize,
    at: usize,
) -> bool {
    if utf16_char_index(text, offset as int) is Some && region.start <= offset <= region.end {
        exists|j: int|
            0 <= j <= preedit.len() && utf16_len(#[trigger] preedit.take(j)) == offset
                - region.start && at == utf8_len(preedit.take(j))
    } else if utf16_char_index(text, offset as int) is Some && offset < region.start {
        at == 0
    } else {
        at == utf8_len(preedit)
    }
}

/// Characters `i` to `j` of `text` measure the difference of the prefixes.
proof fn lemma_subrange_measures(text: Seq<char>, i: int, j: int)
    requires
        0 <= i <= j <= text.len(),
    ensures
        utf8_len(text.subrange(i, j)) == utf8_len(text.take(j)) - utf8_len(text.take(i)),
        utf16_len(text.subrange(i, j)) == utf16_len(text.take(j)) - utf16_len(text.take(i)),
{
    assert(text.take(j) =~= text.take(i) + text.subrange(i, j));
    lemma_utf8_len_concat(text.take(i), text.subrange(i, j));
    lemma_utf16_len_concat(text.take(i), text.subrange(i, j));
}

/// The cursor offset that `composition` computes for one selection end.
proof fn lemma_lands_at(text: Seq<char>, region: TextSpan, ks: int, ke: int, offset: usize)
    requires
        utf8_len(text) <= usize::MAX,
        is_utf16_boundary(text, region.start as int, ks),
        is_utf16_boundary(text, region.end as int, ke),
        ks <= ke,
    ensures
        ({
            let start = utf8_len(text.take(ks)) as int;
            let end = utf8_len(text.take(ke)) as int;
            lands_at(
                text,
                region,
                text.subrange(ks, ke),
                offset,
                (clamp(byte_offset_or(text, offset as int, end), start, end) - start) as usize,
            )
        }),
{
    let start = utf8_len(text.take(ks)) as int;
    let end = utf8_len(text.take(ke)) as int;
    let preedit = text.subrange(ks, ke);
    lemma_prefix_monotone(text, ks, ke);
    lemma_prefix_monotone(text, ke, text.len() as int);
    assert(text.take(text.len() as int) =~= text);
    lemma_subrange_measures(text, ks, ke);
    if utf16_char_index(text, offset as int) is Some {
        let kc = choose|k: int| is_utf16_boundary(text, offset as int, k);
        assert(is_utf16_boundary(text, offset as int, kc));
        if kc < ks {
            lemma_prefix_monotone(text, kc, ks);
        } else if kc > ke {
            lemma_prefix_monotone(text, ke, kc);
        } else {
            lemma_prefix_monotone(text, ks, kc);
            lemma_prefix_monotone(text, kc, ke);
            lemma_subrange_measures(text, ks, kc);
            assert(preedit.take(kc - ks) =~= text.subrange(ks, kc));
        }
        if region.start <= offset <= region.end {
            if kc < ks {
                lemma_prefix_monotone(text, kc, ks);
                assert(false);
            }
            if kc > ke {
                lemma_prefix_monotone(text, ke, kc);
                assert(false);
            }
            assert(0 <= kc - ks <= preedit.len());
            assert(utf16_len(preedit.take(kc - ks)) == offset - region.start);
            assert(byte_offset_or(text, offset as int, end) == utf8_len(text.take(kc)));
            let at = (clamp(byte_offset_or(text, offset as int, end), start, end) - start) as usize;
            assert(at == utf8_len(preedit.take(kc - ks)));
            assert(exists|j: int|
                0 <= j <= preedit.len() && utf16_len(#[trigger] preedit.take(j)) == offset
                    - region.start && at == utf8_len(preedit.take(j)));
        } else if offset < region.start {
            if kc >= ks {
                lemma_prefix_monotone(text, ks, kc);
                assert(false);
            }
        } else {
            if kc <= ke {
                lemma_prefix_monotone(text, kc, ke);
                assert(false);
            }
        }
    }
}

/// The preedit of a composing snapshot is exactly the part of the field
/// that the composing region spans in UTF-16 units, and the reported
/// selection lies in it where the UTF-16 selection lies in the field (a
/// selection end before the region at its start, one after it or off a
/// character boundary at its end).
pub proof fn law_preedit_is_composing_region(
    text: Seq<char>,
    selection: TextSpan,
    region: TextSpan,
)
    requires
        composition(text, selection, region) is Some,
        utf8_len(text) <= usize::MAX,
    ensures
        ({
            let (preedit, (cs, ce)) = composition(text, selection, region)->0;
            &&& exists|ks: int|
                0 <= ks && ks + preedit.len() <= text.len() && #[trigger] text.subrange(
                    ks,
                    ks + preedit.len(),
                ) == preedit && utf16_len(text.take(ks)) == region.start
            &&& utf16_len(preedit) + region.start == region.end
            &&& lands_at(text, region, preedit, selection.start, cs)
            &&& lands_at(text, region, preedit, selection.end, ce)
        }),
{
    let ks = choose|k: int| is_utf16_boundary(text, region.start as int, k);
    let ke = choose|k: int| is_utf16_boundary(text, region.end as int, k);
    assert(is_utf16_boundary(text, region.start as int, ks));
    assert(is_utf16_boundary(text, region.end as int, ke));
    if ke < ks {
        lemma_prefix_monotone(text, ke, ks);
    }
    lemma_subrange_measures(text, ks, ke);
    lemma_lands_at(text, region, ks, ke, selection.start);
    lemma_lands_at(text, region, ks, ke, selection.end);
    assert(text.subrange(ks, ks + (ke - ks)) == text.subrange(ks, ke));
}

/// Whether two selections are the same.
fn same_cursor(a: Option<(usize, usize)>, b: Option<(usize, usize)>) -> (r: bool)
    ensures
        r == (a == b),
{
    match (a, b) {
        (Some((a0, a1)), Some((b0, b1))) => a0 == b0 && a1 == b1,
        (None, None) => true,
        _ => false,
    }
}

fn clamp_usize(x: usize, lo: usize, hi: usize) -> (r: usize)
    requires
        lo <= hi,
    ensures
        r == clamp(x as int, lo as int, hi as int),
{
    if x < lo {
        lo
    } else if x > hi {
        hi
    } else {
        x
    }
}

/// Tracks what has been reported of an Android input connection.
#[derive(Debug)]
pub struct ImeState {
    committed: String,
    preedit: String,
    cursor: Option<(usize, usize)>,
    composing_text: Option<String>,
}

impl View for ImeState {
    type V = ImeModel;

    closed spec fn view(&self) -> ImeModel {
        ImeModel {
            committed: self.committed@,
            preedit: self.preedit@,
            cursor: self.cursor,
            composing_text: match self.composing_text {
                Some(t) => Some(t@),
                None => None,
            },
        }
    }
}

impl Default for ImeState {
    fn default() -> (r: Self)
        ensures
            r@ == initial_model(),
    {
        ImeState {
            committed: String::new(),
            preedit: String::new(),
            cursor: None,
            composing_text: None,
        }
    }
}

impl ImeState {
    /// Held texts are real strings: their UTF-8 length fits in memory.
    #[verifier::type_invariant]
    spec fn fits(self) -> bool {
        &&& utf8_len(self.committed@) <= usize::MAX
        &&& match self.composing_text {
            Some(t) => utf8_len(t@) <= usize::MAX,
            None => true,
        }
    }

    /// Accept composition before an editor action starts a new insertion context.
    pub fn finish(&mut self) -> (events: Vec<Ime>)
        ensures
            final(self)@ == initial_model(),
            event_views(events@) == finish_events(old(self)@),
    {
        proof {
            use_type_invariant(&*self);
        }
        let composing = match &self.composing_text {
            Some(text) => Some(text.clone()),
            None => None,
        };
        self.composing_text = None;
        let events = match composing {
            Some(text) => {
                let snapshot = TextInputState {
                    text,
                    selection: TextSpan { start: 0, end: 0 },
                    compose_region: None,
                };
                self.update(&snapshot)
            },
            None => Vec::new(),
        };
        *self = Self::default();
        events
    }

    /// Reports what changed with the snapshot `state`.
    pub fn update(&mut self, state: &TextInputState) -> (events: Vec<Ime>)
        requires
            utf8_len(state.text@) <= usize::MAX,
        ensures
            final(self)@ == update_model(
                old(self)@,
                state.text@,
                state.selection,
                state.compose_region,
            ).0,
            event_views(events@) == update_model(
                old(self)@,
                state.text@,
                state.selection,
                state.compose_region,
            ).1,
    {
        proof {
            use_type_invariant(&*self);
        }
        let ghost m0 = self@;
        let ghost tv = state.text@;
        let mut events: Vec<Ime> = Vec::new();
        let text = chars_of(state.text.as_str());
        let (preedit, cursor) = match state.compose_region {
            Some(span) => {
                let (ks, start) = match utf16_boundary(&text, span.start) {
                    Some(found) => found,
                    None => {
                        assert(event_views(events@) =~= Seq::<ImeView>::empty());
                        return events;
                    },
                };
                let (ke, end) = match utf16_boundary(&text, span.end) {
                    Some(found) => found,
                    None => {
                        assert(event_views(events@) =~= Seq::<ImeView>::empty());
                        return events;
                    },
                };
                if start > end {
                    assert(event_views(events@) =~= Seq::<ImeView>::empty());
                    return events;
                }
                proof {
                    if ke < ks {
                        lemma_prefix_monotone(tv, ke as int, ks as int);
                    }
                }
                let selection_start = match utf16_boundary(&text, state.selection.start) {
                    Some((_, b)) => b,
                    None => end,
                };
                let selection_end = match utf16_boundary(&text, state.selection.end) {
                    Some((_, b)) => b,
                    None => end,
                };
                let cursor_start = clamp_usize(selection_start, start, end) - start;
                let cursor_end = clamp_usize(selection_end, start, end) - start;
                self.composing_text = Some(state.text.clone());
                let shown = state.text.as_str().substring_char(ks, ke).to_owned();
                (shown, Some((cursor_start, cursor_end)))
            },
            None => {
                self.composing_text = None;
                (String::new(), None)
            },
        };
        let ghost m1 = self@;
        if state.compose_region.is_none() && !(state.text == self.committed) {
            let old_text = chars_of(self.committed.as_str());
            let mut p: usize = 0;
            let mut prefix: usize = 0;
            while p < old_text.len() && p < text.len() && old_text[p] == text[p]
                invariant
                    old_text@ == m0.committed,
                    text@ == tv,
                    utf8_len(m0.committed) <= usize::MAX,
                    0 <= p <= old_text@.len(),
                    p <= text@.len(),
                    prefix == utf8_len(old_text@.take(p as int)),
                    forall|i: int| 0 <= i < p ==> old_text@[i] == text@[i],
                decreases old_text@.len() - p,
            {
                proof {
                    lemma_prefix_step(old_text@, p as int);
                    lemma_prefix_monotone(old_text@, p as int + 1, old_text@.len() as int);
                    assert(old_text@.take(old_text@.len() as int) =~= old_text@);
                }
                prefix = prefix + char_utf8_width(old_text[p]);
                p = p + 1;
            }
            proof {
                lemma_shared_prefix_len(m0.committed, tv, p as int);
                lemma_take_skip_len(m0.committed, p as int);
            }
            events.push(Ime::Preedit(String::new(), None));
            let before_bytes = self.committed.as_str().len() - prefix;
            if before_bytes != 0 {
                events.push(Ime::DeleteSurrounding { before_bytes, after_bytes: 0 });
            }
            let n = text.len();
            let rest = state.text.as_str().substring_char(p, n).to_owned();
            events.push(Ime::Commit(rest));
            self.committed = state.text.clone();
            self.preedit = String::new();
            self.cursor = None;
            proof {
                assert(tv.subrange(p as int, n as int) =~= tv.skip(p as int));
                assert(event_views(events@) =~= accept_text(m1, tv).1);
            }
        }
        if !(preedit == self.preedit) || !same_cursor(cursor, self.cursor) {
            let ghost before_push = events@;
            events.push(Ime::Preedit(preedit.clone(), cursor));
            proof {
                assert(event_views(events@) =~= event_views(before_push).push(
                    ImeView::Preedit(preedit@, cursor),
                ));
            }
            self.preedit = preedit;
            self.cursor = cursor;
        }
        events
    }
}

} // verus!
