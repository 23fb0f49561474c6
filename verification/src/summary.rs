//! Meeting summaries and the evidence rules they are held to before they
//! reach the user.
use vstd::prelude::*;
use crate::evidence::{views, kept_evidence, kept_evidence_ids, strictly_sorted, lemma_kept_evidence_exists, lemma_kept_evidence_idempotent};
use crate::text::{opt_view, is_blank, is_blank_str, owned};

verus! {

/// One transcript segment with a stable ID (its start time stays in the app).
#[derive(Debug, Clone)]
pub struct TranscriptSegment {
    pub id: String,
    pub timestamp: String,
    pub audio_source: String,
    pub raw_text: String,
    pub clean_text: String,
}

#[derive(Debug, Clone)]
pub struct SummaryBullet {
    pub id: String,
    pub text: String,
    pub evidence_ids: Vec<String>,
}

#[derive(Debug, Clone)]
pub struct UnresolvedTopic {
    pub id: String,
    pub text: String,
    pub topic: String,
    pub options: Vec<String>,
    pub status: String,
    pub evidence_ids: Vec<String>,
}

#[derive(Debug, Clone)]
pub struct ActionItem {
    pub id: String,
    pub owner: Option<String>,
    pub task: String,
    pub deadline: Option<String>,
    pub evidence_ids: Vec<String>,
}

#[derive(Debug, Clone)]
pub struct DeferredItem {
    pub id: String,
    pub text: String,
    pub target: Option<String>,
    pub evidence_ids: Vec<String>,
}

#[derive(Debug, Clone)]
pub struct MeetingSummary {
    pub tldr: String,
    pub key_points: Vec<SummaryBullet>,
    pub decisions: Vec<SummaryBullet>,
    pub tentative_decisions: Vec<SummaryBullet>,
    pub unresolved_topics: Vec<UnresolvedTopic>,
    pub action_items: Vec<ActionItem>,
    pub open_questions: Vec<SummaryBullet>,
    pub deferred: Vec<DeferredItem>,
}


impl Default for SummaryBullet {
    fn default() -> (r: Self)
        ensures
            r.id@ == Seq::<char>::empty(),
            r.text@ == Seq::<char>::empty(),
            r.evidence_ids@.len() == 0,
    {
        SummaryBullet { id: String::new(), text: String::new(), evidence_ids: Vec::new() }
    }
}

impl Default for UnresolvedTopic {
    /// An empty topic whose status is already the conservative one.
    fn default() -> (r: Self)
        ensures
            r.id@ == Seq::<char>::empty(),
            r.text@ == Seq::<char>::empty(),
            r.topic@ == Seq::<char>::empty(),
            r.options@.len() == 0,
            r.status@ == no_final_decision(),
            r.evidence_ids@.len() == 0,
    {
        UnresolvedTopic {
            id: String::new(),
            text: String::new(),
            topic: String::new(),
            options: Vec::new(),
            status: owned("No final decision"),
            evidence_ids: Vec::new(),
        }
    }
}

impl Default for ActionItem {
    fn default() -> (r: Self)
        ensures
            r.id@ == Seq::<char>::empty(),
            r.owner is None,
            r.task@ == Seq::<char>::empty(),
            r.deadline is None,
            r.evidence_ids@.len() == 0,
    {
        ActionItem { id: String::new(), owner: None, task: String::new(), deadline: None, evidence_ids: Vec::new() }
    }
}

impl Default for DeferredItem {
    fn default() -> (r: Self)
        ensures
            r.id@ == Seq::<char>::empty(),
            r.text@ == Seq::<char>::empty(),
            r.target is None,
            r.evidence_ids@.len() == 0,
    {
        DeferredItem { id: String::new(), text: String::new(), target: None, evidence_ids: Vec::new() }
    }
}

impl Default for MeetingSummary {
    /// An empty summary: no text and no items in any section.
    fn default() -> (r: Self)
        ensures
            r.tldr@ == Seq::<char>::empty(),
            r.key_points@.len() == 0,
            r.decisions@.len() == 0,
            r.tentative_decisions@.len() == 0,
            r.unresolved_topics@.len() == 0,
            r.action_items@.len() == 0,
            r.open_questions@.len() == 0,
            r.deferred@.len() == 0,
    {
        MeetingSummary {
            tldr: String::new(),
            key_points: Vec::new(),
            decisions: Vec::new(),
            tentative_decisions: Vec::new(),
            unresolved_topics: Vec::new(),
            action_items: Vec::new(),
            open_questions: Vec::new(),
            deferred: Vec::new(),
        }
    }
}

pub struct BulletView {
    pub id: Seq<char>,
    pub text: Seq<char>,
    pub evidence: Seq<Seq<char>>,
}

pub struct UnresolvedView {
    pub id: Seq<char>,
    pub text: Seq<char>,
    pub topic: Seq<char>,
    pub options: Seq<Seq<char>>,
    pub status: Seq<char>,
    pub evidence: Seq<Seq<char>>,
}

pub struct ActionView {
    pub id: Seq<char>,
    pub owner: Option<Seq<char>>,
    pub task: Seq<char>,
    pub deadline: Option<Seq<char>>,
    pub evidence: Seq<Seq<char>>,
}

pub struct DeferredView {
    pub id: Seq<char>,
    pub text: Seq<char>,
    pub target: Option<Seq<char>>,
    pub evidence: Seq<Seq<char>>,
}

impl View for SummaryBullet {
    type V = BulletView;

    open spec fn view(&self) -> BulletView {
        BulletView { id: self.id@, text: self.text@, evidence: views(self.evidence_ids@) }
    }
}

impl View for UnresolvedTopic {
    type V = UnresolvedView;

    open spec fn view(&self) -> UnresolvedView {
        UnresolvedView {
            id: self.id@,
            text: self.text@,
            topic: self.topic@,
            options: views(self.options@),
            status: self.status@,
            evidence: views(self.evidence_ids@),
        }
    }
}

impl View for ActionItem {
    type V = ActionView;

    open spec fn view(&self) -> ActionView {
        ActionView {
            id: self.id@,
            owner: opt_view(self.owner),
            task: self.task@,
            deadline: opt_view(self.deadline),
            evidence: views(self.evidence_ids@),
        }
    }
}

impl View for DeferredItem {
    type V = DeferredView;

    open spec fn view(&self) -> DeferredView {
        DeferredView {
            id: self.id@,
            text: self.text@,
            target: opt_view(self.target),
            evidence: views(self.evidence_ids@),
        }
    }
}

pub open spec fn bullet_views(v: Seq<SummaryBullet>) -> Seq<BulletView> {
    v.map_values(|b: SummaryBullet| b@)
}

pub open spec fn unresolved_views(v: Seq<UnresolvedTopic>) -> Seq<UnresolvedView> {
    v.map_values(|b: UnresolvedTopic| b@)
}

pub open spec fn action_views(v: Seq<ActionItem>) -> Seq<ActionView> {
    v.map_values(|b: ActionItem| b@)
}

pub open spec fn deferred_views(v: Seq<DeferredItem>) -> Seq<DeferredView> {
    v.map_values(|b: DeferredItem| b@)
}

/// The IDs of the transcript segments.
pub open spec fn segment_ids(segments: Seq<TranscriptSegment>) -> Seq<Seq<char>> {
    segments.map_values(|s: TranscriptSegment| s.id@)
}

/// The status every unresolved topic carries once validated.
pub open spec fn no_final_decision() -> Seq<char> {
    "No final decision"@
}

/// A bullet with its evidence reduced to IDs of real segments.
pub open spec fn checked_bullet(b: BulletView, allowed: Seq<Seq<char>>) -> BulletView {
    BulletView { evidence: kept_evidence(b.evidence, allowed), ..b }
}

/// A bullet is kept when it has text and, where evidence is required, evidence.
pub open spec fn bullet_kept(b: BulletView, evidence_required: bool) -> bool {
    !is_blank(b.text) && (!evidence_required || b.evidence.len() > 0)
}

pub open spec fn validated_bullets(items: Seq<BulletView>, allowed: Seq<Seq<char>>, evidence_required: bool) -> Seq<BulletView> {
    items.map_values(|b: BulletView| checked_bullet(b, allowed)).filter(|b: BulletView| bullet_kept(b, evidence_required))
}

/// An unresolved topic with checked evidence, the conservative status, and
/// its topic standing in for a blank text.
pub open spec fn checked_unresolved(u: UnresolvedView, allowed: Seq<Seq<char>>) -> UnresolvedView {
    UnresolvedView {
        text: if is_blank(u.text) { u.topic } else { u.text },
        status: no_final_decision(),
        evidence: kept_evidence(u.evidence, allowed),
        ..u
    }
}

pub open spec fn unresolved_kept(u: UnresolvedView) -> bool {
    !is_blank(u.topic) && u.evidence.len() > 0
}

pub open spec fn validated_unresolved(items: Seq<UnresolvedView>, allowed: Seq<Seq<char>>) -> Seq<UnresolvedView> {
    items.map_values(|u: UnresolvedView| checked_unresolved(u, allowed)).filter(|u: UnresolvedView| unresolved_kept(u))
}

pub open spec fn checked_action(a: ActionView, allowed: Seq<Seq<char>>) -> ActionView {
    ActionView { evidence: kept_evidence(a.evidence, allowed), ..a }
}

pub open spec fn action_kept(a: ActionView) -> bool {
    !is_blank(a.task) && a.evidence.len() > 0
}

pub open spec fn validated_actions(items: Seq<ActionView>, allowed: Seq<Seq<char>>) -> Seq<ActionView> {
    items.map_values(|a: ActionView| checked_action(a, allowed)).filter(|a: ActionView| action_kept(a))
}

pub open spec fn checked_deferred(d: DeferredView, allowed: Seq<Seq<char>>) -> DeferredView {
    DeferredView { evidence: kept_evidence(d.evidence, allowed), ..d }
}

pub open spec fn deferred_kept(d: DeferredView) -> bool {
    !is_blank(d.text) && d.evidence.len() > 0
}

pub open spec fn validated_deferred(items: Seq<DeferredView>, allowed: Seq<Seq<char>>) -> Seq<DeferredView> {
    items.map_values(|d: DeferredView| checked_deferred(d, allowed)).filter(|d: DeferredView| deferred_kept(d))
}


/// What a map followed by a filter keeps: items that pass the filter, each
/// the image of an input item.
pub proof fn lemma_map_filter_members<A, B>(s: Seq<A>, f: spec_fn(A) -> B, p: spec_fn(B) -> bool)
    ensures
        forall|j: int| 0 <= j < s.map_values(f).filter(p).len() ==> {
            &&& p(#[trigger] s.map_values(f).filter(p)[j])
            &&& exists|i: int| 0 <= i < s.len() && s.map_values(f).filter(p)[j] == f(s[i])
        },
    decreases s.len(),
{
    reveal_with_fuel(Seq::filter, 1);
    let r = s.map_values(f).filter(p);
    if s.len() > 0 {
        let t = s.drop_last();
        lemma_map_filter_members(t, f, p);
        assert(s.map_values(f).drop_last() =~= t.map_values(f));
        let rt = t.map_values(f).filter(p);
        assert forall|j: int| 0 <= j < r.len() implies {
            &&& p(#[trigger] r[j])
            &&& exists|i: int| 0 <= i < s.len() && r[j] == f(s[i])
        } by {
            if j < rt.len() {
                assert(r[j] == rt[j]);
                let i = choose|i: int| 0 <= i < t.len() && rt[j] == f(t[i]);
                assert(s[i] == t[i]);
            } else {
                assert(r[j] == f(s[s.len() - 1]));
            }
        }
    }
}

/// A map followed by a filter leaves alone a list whose items the map fixes
/// and the filter passes.
pub proof fn lemma_map_filter_fixed<A>(s: Seq<A>, f: spec_fn(A) -> A, p: spec_fn(A) -> bool)
    requires
        forall|i: int| 0 <= i < s.len() ==> f(#[trigger] s[i]) == s[i] && p(s[i]),
    ensures
        s.map_values(f).filter(p) == s,
    decreases s.len(),
{
    reveal_with_fuel(Seq::filter, 1);
    if s.len() > 0 {
        let t = s.drop_last();
        assert forall|i: int| 0 <= i < t.len() implies f(#[trigger] t[i]) == t[i] && p(t[i]) by {
            assert(t[i] == s[i]);
        }
        lemma_map_filter_fixed(t, f, p);
        assert(s.map_values(f).drop_last() =~= t.map_values(f));
        assert(f(s.last()) == s.last() && p(s.last()));
        assert(t.push(s.last()) =~= s);
    } else {
        assert(s.map_values(f) =~= s);
    }
}

/// A map followed by a filter, applied a second time, changes nothing when
/// the map is idempotent.
pub proof fn lemma_map_filter_idempotent<A>(s: Seq<A>, f: spec_fn(A) -> A, p: spec_fn(A) -> bool)
    requires
        forall|x: A| #[trigger] f(f(x)) == f(x),
    ensures
        s.map_values(f).filter(p).map_values(f).filter(p) == s.map_values(f).filter(p),
{
    let out = s.map_values(f).filter(p);
    lemma_map_filter_members(s, f, p);
    assert forall|j: int| 0 <= j < out.len() implies f(#[trigger] out[j]) == out[j] && p(out[j]) by {
        let i = choose|i: int| 0 <= i < s.len() && out[j] == f(s[i]);
        assert(f(f(s[i])) == f(s[i]));
    }
    lemma_map_filter_fixed(out, f, p);
}

/// When the map reduces each item's evidence (read by `ev`) to the segments
/// in `allowed`, every item that a map followed by a filter keeps passes the
/// filter, cites only segments in `allowed` (sorted, each once), and is the
/// image of an input item.
pub proof fn lemma_map_filter_cites<A>(
    s: Seq<A>,
    f: spec_fn(A) -> A,
    p: spec_fn(A) -> bool,
    ev: spec_fn(A) -> Seq<Seq<char>>,
    allowed: Seq<Seq<char>>,
)
    requires
        forall|x: A| #[trigger] ev(f(x)) == kept_evidence(ev(x), allowed),
    ensures
        forall|j: int| 0 <= j < s.map_values(f).filter(p).len() ==> {
            let y = #[trigger] s.map_values(f).filter(p)[j];
            &&& p(y)
            &&& strictly_sorted(ev(y))
            &&& forall|k: int| 0 <= k < ev(y).len() ==> allowed.contains(#[trigger] ev(y)[k])
            &&& exists|i: int| 0 <= i < s.len() && y == f(s[i])
        },
{
    lemma_map_filter_members(s, f, p);
    let out = s.map_values(f).filter(p);
    assert forall|j: int| 0 <= j < out.len() implies {
        let y = #[trigger] out[j];
        &&& p(y)
        &&& strictly_sorted(ev(y))
        &&& forall|k: int| 0 <= k < ev(y).len() ==> allowed.contains(#[trigger] ev(y)[k])
        &&& exists|i: int| 0 <= i < s.len() && y == f(s[i])
    } by {
        let i = choose|i: int| 0 <= i < s.len() && out[j] == f(s[i]);
        lemma_kept_evidence_exists(ev(s[i]), allowed);
        assert(ev(f(s[i])) == kept_evidence(ev(s[i]), allowed));
        let e = ev(out[j]);
        assert forall|k: int| 0 <= k < e.len() implies allowed.contains(#[trigger] e[k]) by {
            assert(e.contains(e[k]));
        }
    }
}

/// Validated bullets have text, carry evidence where it is required, cite only
/// transcript segments (sorted, each once), and each one is an input bullet
/// with its evidence checked: nothing is invented.
pub proof fn lemma_validated_bullets_backed(items: Seq<BulletView>, allowed: Seq<Seq<char>>, evidence_required: bool)
    ensures
        forall|j: int| 0 <= j < validated_bullets(items, allowed, evidence_required).len() ==> {
            let b = #[trigger] validated_bullets(items, allowed, evidence_required)[j];
            &&& !is_blank(b.text)
            &&& evidence_required ==> b.evidence.len() > 0
            &&& strictly_sorted(b.evidence)
            &&& forall|k: int| 0 <= k < b.evidence.len() ==> allowed.contains(#[trigger] b.evidence[k])
            &&& exists|i: int| 0 <= i < items.len() && b == checked_bullet(items[i], allowed)
        },
{
    lemma_map_filter_cites(
        items,
        |b: BulletView| checked_bullet(b, allowed),
        |b: BulletView| bullet_kept(b, evidence_required),
        |b: BulletView| b.evidence,
        allowed,
    );
}

/// Validating bullets twice gives what validating once gives.
pub proof fn lemma_validated_bullets_idempotent(items: Seq<BulletView>, allowed: Seq<Seq<char>>, evidence_required: bool)
    ensures
        validated_bullets(validated_bullets(items, allowed, evidence_required), allowed, evidence_required)
            == validated_bullets(items, allowed, evidence_required),
{
    let f = |b: BulletView| checked_bullet(b, allowed);
    assert forall|x: BulletView| #[trigger] f(f(x)) == f(x) by {
        lemma_kept_evidence_idempotent(x.evidence, allowed);
    }
    lemma_map_filter_idempotent(items, f, |b: BulletView| bullet_kept(b, evidence_required));
}

/// Validated unresolved topics have a topic and a text, say "No final
/// decision", cite at least one transcript segment and only such segments,
/// and each one comes from an input topic.
pub proof fn lemma_validated_unresolved_backed(items: Seq<UnresolvedView>, allowed: Seq<Seq<char>>)
    ensures
        forall|j: int| 0 <= j < validated_unresolved(items, allowed).len() ==> {
            let u = #[trigger] validated_unresolved(items, allowed)[j];
            &&& !is_blank(u.topic)
            &&& !is_blank(u.text)
            &&& u.status == no_final_decision()
            &&& u.evidence.len() > 0
            &&& strictly_sorted(u.evidence)
            &&& forall|k: int| 0 <= k < u.evidence.len() ==> allowed.contains(#[trigger] u.evidence[k])
            &&& exists|i: int| 0 <= i < items.len() && u == checked_unresolved(items[i], allowed)
        },
{
    lemma_map_filter_cites(
        items,
        |u: UnresolvedView| checked_unresolved(u, allowed),
        |u: UnresolvedView| unresolved_kept(u),
        |u: UnresolvedView| u.evidence,
        allowed,
    );
}

/// Validating unresolved topics twice gives what validating once gives.
pub proof fn lemma_validated_unresolved_idempotent(items: Seq<UnresolvedView>, allowed: Seq<Seq<char>>)
    ensures
        validated_unresolved(validated_unresolved(items, allowed), allowed) == validated_unresolved(items, allowed),
{
    let f = |u: UnresolvedView| checked_unresolved(u, allowed);
    assert forall|x: UnresolvedView| #[trigger] f(f(x)) == f(x) by {
        lemma_kept_evidence_idempotent(x.evidence, allowed);
    }
    lemma_map_filter_idempotent(items, f, |u: UnresolvedView| unresolved_kept(u));
}

/// Validated action items have a task, cite at least one transcript segment
/// and only such segments, and each one is an input item with its evidence
/// checked (owner and deadline untouched).
pub proof fn lemma_validated_actions_backed(items: Seq<ActionView>, allowed: Seq<Seq<char>>)
    ensures
        forall|j: int| 0 <= j < validated_actions(items, allowed).len() ==> {
            let a = #[trigger] validated_actions(items, allowed)[j];
            &&& !is_blank(a.task)
            &&& a.evidence.len() > 0
            &&& strictly_sorted(a.evidence)
            &&& forall|k: int| 0 <= k < a.evidence.len() ==> allowed.contains(#[trigger] a.evidence[k])
            &&& exists|i: int| 0 <= i < items.len() && a == checked_action(items[i], allowed)
        },
{
    lemma_map_filter_cites(
        items,
        |a: ActionView| checked_action(a, allowed),
        |a: ActionView| action_kept(a),
        |a: ActionView| a.evidence,
        allowed,
    );
}

/// Validating action items twice gives what validating once gives.
pub proof fn lemma_validated_actions_idempotent(items: Seq<ActionView>, allowed: Seq<Seq<char>>)
    ensures
        validated_actions(validated_actions(items, allowed), allowed) == validated_actions(items, allowed),
{
    let f = |a: ActionView| checked_action(a, allowed);
    assert forall|x: ActionView| #[trigger] f(f(x)) == f(x) by {
        lemma_kept_evidence_idempotent(x.evidence, allowed);
    }
    lemma_map_filter_idempotent(items, f, |a: ActionView| action_kept(a));
}

/// Validated deferred items have text, cite at least one transcript segment
/// and only such segments, and each one comes from an input item.
pub proof fn lemma_validated_deferred_backed(items: Seq<DeferredView>, allowed: Seq<Seq<char>>)
    ensures
        forall|j: int| 0 <= j < validated_deferred(items, allowed).len() ==> {
            let d = #[trigger] validated_deferred(items, allowed)[j];
            &&& !is_blank(d.text)
            &&& d.evidence.len() > 0
            &&& strictly_sorted(d.evidence)
            &&& forall|k: int| 0 <= k < d.evidence.len() ==> allowed.contains(#[trigger] d.evidence[k])
            &&& exists|i: int| 0 <= i < items.len() && d == checked_deferred(items[i], allowed)
        },
{
    lemma_map_filter_cites(
        items,
        |d: DeferredView| checked_deferred(d, allowed),
        |d: DeferredView| deferred_kept(d),
        |d: DeferredView| d.evidence,
        allowed,
    );
}

/// Validating deferred items twice gives what validating once gives.
pub proof fn lemma_validated_deferred_idempotent(items: Seq<DeferredView>, allowed: Seq<Seq<char>>)
    ensures
        validated_deferred(validated_deferred(items, allowed), allowed) == validated_deferred(items, allowed),
{
    let f = |d: DeferredView| checked_deferred(d, allowed);
    assert forall|x: DeferredView| #[trigger] f(f(x)) == f(x) by {
        lemma_kept_evidence_idempotent(x.evidence, allowed);
    }
    lemma_map_filter_idempotent(items, f, |d: DeferredView| deferred_kept(d));
}

/// A map followed by a filter keeps every input item whose image passes the
/// filter.
pub proof fn lemma_map_filter_complete<A, B>(s: Seq<A>, f: spec_fn(A) -> B, p: spec_fn(B) -> bool)
    ensures
        forall|i: int| 0 <= i < s.len() && p(f(#[trigger] s[i])) ==>
            exists|j: int| 0 <= j < s.map_values(f).filter(p).len() && s.map_values(f).filter(p)[j] == f(s[i]),
    decreases s.len(),
{
    reveal_with_fuel(Seq::filter, 1);
    if s.len() > 0 {
        let t = s.drop_last();
        lemma_map_filter_complete(t, f, p);
        assert(s.map_values(f).drop_last() =~= t.map_values(f));
        let r = s.map_values(f).filter(p);
        let rt = t.map_values(f).filter(p);
        assert forall|i: int| 0 <= i < s.len() && p(f(#[trigger] s[i])) implies
            exists|j: int| 0 <= j < r.len() && r[j] == f(s[i]) by {
            if i < t.len() {
                assert(t[i] == s[i]);
                let j = choose|j: int| 0 <= j < rt.len() && rt[j] == f(t[i]);
                assert(r[j] == rt[j]);
            } else {
                assert(r[r.len() - 1] == f(s[s.len() - 1]));
            }
        }
    }
}

/// Each kept bullet is an input bullet with the same ID and text, only its
/// evidence reduced to transcript segments; and every input bullet with text
/// (and, where required, with evidence naming a segment) is kept.
pub proof fn lemma_validated_bullets_fields(items: Seq<BulletView>, allowed: Seq<Seq<char>>, evidence_required: bool)
    ensures
        forall|j: int| 0 <= j < validated_bullets(items, allowed, evidence_required).len() ==> exists|i: int| #![trigger items[i]] {
            let b = #[trigger] validated_bullets(items, allowed, evidence_required)[j];
            &&& 0 <= i < items.len()
            &&& b.id == items[i].id
            &&& b.text == items[i].text
            &&& b.evidence == kept_evidence(items[i].evidence, allowed)
        },
        forall|i: int| 0 <= i < items.len() && !is_blank(#[trigger] items[i].text)
            && (!evidence_required || kept_evidence(items[i].evidence, allowed).len() > 0) ==> exists|j: int| {
                let b = #[trigger] validated_bullets(items, allowed, evidence_required)[j];
                &&& 0 <= j < validated_bullets(items, allowed, evidence_required).len()
                &&& b.id == items[i].id
                &&& b.text == items[i].text
                &&& b.evidence == kept_evidence(items[i].evidence, allowed)
            },
{
    lemma_validated_bullets_backed(items, allowed, evidence_required);
    lemma_map_filter_complete(
        items,
        |b: BulletView| checked_bullet(b, allowed),
        |b: BulletView| bullet_kept(b, evidence_required),
    );
}

/// Each kept unresolved topic is an input topic with the same ID, topic and
/// options, its text (the topic when the text is blank), the status "No
/// final decision", and its evidence reduced to transcript segments; and
/// every input topic with a topic and evidence naming a segment is kept.
pub proof fn lemma_validated_unresolved_fields(items: Seq<UnresolvedView>, allowed: Seq<Seq<char>>)
    ensures
        forall|j: int| 0 <= j < validated_unresolved(items, allowed).len() ==> exists|i: int| #![trigger items[i]] {
            let u = #[trigger] validated_unresolved(items, allowed)[j];
            &&& 0 <= i < items.len()
            &&& u.id == items[i].id
            &&& u.topic == items[i].topic
            &&& u.options == items[i].options
            &&& u.text == (if is_blank(items[i].text) { items[i].topic } else { items[i].text })
            &&& u.status == "No final decision"@
            &&& u.evidence == kept_evidence(items[i].evidence, allowed)
        },
        forall|i: int| 0 <= i < items.len() && !is_blank(#[trigger] items[i].topic)
            && kept_evidence(items[i].evidence, allowed).len() > 0 ==> exists|j: int| {
                let u = #[trigger] validated_unresolved(items, allowed)[j];
                &&& 0 <= j < validated_unresolved(items, allowed).len()
                &&& u.id == items[i].id
                &&& u.topic == items[i].topic
                &&& u.options == items[i].options
                &&& u.text == (if is_blank(items[i].text) { items[i].topic } else { items[i].text })
                &&& u.status == "No final decision"@
                &&& u.evidence == kept_evidence(items[i].evidence, allowed)
            },
{
    lemma_validated_unresolved_backed(items, allowed);
    lemma_map_filter_complete(
        items,
        |u: UnresolvedView| checked_unresolved(u, allowed),
        |u: UnresolvedView| unresolved_kept(u),
    );
}

/// Each kept action item is an input item with the same ID, owner, task and
/// deadline, only its evidence reduced to transcript segments; and every
/// input item with a task and evidence naming a segment is kept.
pub proof fn lemma_validated_actions_fields(items: Seq<ActionView>, allowed: Seq<Seq<char>>)
    ensures
        forall|j: int| 0 <= j < validated_actions(items, allowed).len() ==> exists|i: int| #![trigger items[i]] {
            let a = #[trigger] validated_actions(items, allowed)[j];
            &&& 0 <= i < items.len()
            &&& a.id == items[i].id
            &&& a.owner == items[i].owner
            &&& a.task == items[i].task
            &&& a.deadline == items[i].deadline
            &&& a.evidence == kept_evidence(items[i].evidence, allowed)
        },
        forall|i: int| 0 <= i < items.len() && !is_blank(#[trigger] items[i].task)
            && kept_evidence(items[i].evidence, allowed).len() > 0 ==> exists|j: int| {
                let a = #[trigger] validated_actions(items, allowed)[j];
                &&& 0 <= j < validated_actions(items, allowed).len()
                &&& a.id == items[i].id
                &&& a.owner == items[i].owner
                &&& a.task == items[i].task
                &&& a.deadline == items[i].deadline
                &&& a.evidence == kept_evidence(items[i].evidence, allowed)
            },
{
    lemma_validated_actions_backed(items, allowed);
    lemma_map_filter_complete(
        items,
        |a: ActionView| checked_action(a, allowed),
        |a: ActionView| action_kept(a),
    );
}

/// Each kept deferred item is an input item with the same ID, text and
/// target, only its evidence reduced to transcript segments; and every input
/// item with text and evidence naming a segment is kept.
pub proof fn lemma_validated_deferred_fields(items: Seq<DeferredView>, allowed: Seq<Seq<char>>)
    ensures
        forall|j: int| 0 <= j < validated_deferred(items, allowed).len() ==> exists|i: int| #![trigger items[i]] {
            let d = #[trigger] validated_deferred(items, allowed)[j];
            &&& 0 <= i < items.len()
            &&& d.id == items[i].id
            &&& d.text == items[i].text
            &&& d.target == items[i].target
            &&& d.evidence == kept_evidence(items[i].evidence, allowed)
        },
        forall|i: int| 0 <= i < items.len() && !is_blank(#[trigger] items[i].text)
            && kept_evidence(items[i].evidence, allowed).len() > 0 ==> exists|j: int| {
                let d = #[trigger] validated_deferred(items, allowed)[j];
                &&& 0 <= j < validated_deferred(items, allowed).len()
                &&& d.id == items[i].id
                &&& d.text == items[i].text
                &&& d.target == items[i].target
                &&& d.evidence == kept_evidence(items[i].evidence, allowed)
            },
{
    lemma_validated_deferred_backed(items, allowed);
    lemma_map_filter_complete(
        items,
        |d: DeferredView| checked_deferred(d, allowed),
        |d: DeferredView| deferred_kept(d),
    );
}

fn copy_strings(v: &Vec<String>) -> (r: Vec<String>)
    ensures
        views(r@) == views(v@),
{
    let mut out: Vec<String> = Vec::new();
    let n = v.len();
    let mut i: usize = 0;
    while i < n
        invariant
            n == v@.len(),
            i <= n,
            out@.len() == i,
            views(out@) =~= views(v@.subrange(0, i as int)),
        decreases n - i,
    {
        let ghost prev = out@;
        out.push(v[i].clone());
        assert(out@ =~= prev.push(v@[i as int]));
        assert(v@.subrange(0, i + 1) =~= v@.subrange(0, i as int).push(v@[i as int]));
        assert forall|k: int| 0 <= k < i implies #[trigger] out@[k]@ == v@[k]@ by {
            assert(views(prev)[k] == views(v@.subrange(0, i as int))[k]);
        }
        assert(views(out@) =~= views(v@.subrange(0, i + 1)));
        i = i + 1;
    }
    assert(v@.subrange(0, n as int) =~= v@);
    out
}

fn copy_opt(o: &Option<String>) -> (r: Option<String>)
    ensures
        opt_view(r) == opt_view(*o),
{
    match o {
        Some(s) => Some(s.clone()),
        None => None,
    }
}

/// Runs `check` on each item, in order, and keeps the checked items that it
/// passes: in views, the input mapped by `f` and filtered by `p`.
fn keep_checked<T: View>(
    items: &Vec<T>,
    check: impl Fn(&T) -> (T, bool),
    Ghost(f): Ghost<spec_fn(T::V) -> T::V>,
    Ghost(p): Ghost<spec_fn(T::V) -> bool>,
) -> (r: Vec<T>)
    requires
        forall|x: &T| #[trigger] check.requires((x,)),
        forall|x: &T, o: (T, bool)| #[trigger] check.ensures((x,), o) ==> o.0@ == f(x@) && o.1 == p(f(x@)),
    ensures
        r@.map_values(|t: T| t@) == items@.map_values(|t: T| t@).map_values(f).filter(p),
{
    let mut out: Vec<T> = Vec::new();
    let n = items.len();
    let mut i: usize = 0;
    while i < n
        invariant
            n == items@.len(),
            i <= n,
            forall|x: &T| #[trigger] check.requires((x,)),
            forall|x: &T, o: (T, bool)| #[trigger] check.ensures((x,), o) ==> o.0@ == f(x@) && o.1 == p(f(x@)),
            out@.map_values(|t: T| t@) == items@.subrange(0, i as int).map_values(|t: T| t@).map_values(f).filter(p),
        decreases n - i,
    {
        let (next, keep) = check(&items[i]);
        let ghost prev = out@.map_values(|t: T| t@);
        if keep {
            out.push(next);
            assert(out@.map_values(|t: T| t@) =~= prev.push(next@));
        }
        proof {
            reveal_with_fuel(Seq::filter, 1);
            let s0 = items@.subrange(0, i as int).map_values(|t: T| t@).map_values(f);
            let s1 = items@.subrange(0, i + 1).map_values(|t: T| t@).map_values(f);
            assert(s1 =~= s0.push(f(items@[i as int]@)));
            assert(s1.drop_last() =~= s0);
        }
        i = i + 1;
    }
    assert(items@.subrange(0, n as int) =~= items@);
    out
}

fn validate_bullets(items: &Vec<SummaryBullet>, allowed: &Vec<String>, evidence_required: bool) -> (r: Vec<SummaryBullet>)
    ensures
        bullet_views(r@) == validated_bullets(bullet_views(items@), views(allowed@), evidence_required),
{
    let check = |item: &SummaryBullet| -> (o: (SummaryBullet, bool))
        ensures
            o.0@ == checked_bullet(item@, views(allowed@)),
            o.1 == bullet_kept(o.0@, evidence_required),
    {
        let next = SummaryBullet {
            id: item.id.clone(),
            text: item.text.clone(),
            evidence_ids: kept_evidence_ids(&item.evidence_ids, allowed),
        };
        let keep = !is_blank_str(item.text.as_str()) && (!evidence_required || next.evidence_ids.len() > 0);
        (next, keep)
    };
    let r = keep_checked(
        items,
        check,
        Ghost(|b: BulletView| checked_bullet(b, views(allowed@))),
        Ghost(|b: BulletView| bullet_kept(b, evidence_required)),
    );
    assert(bullet_views(r@) =~= validated_bullets(bullet_views(items@), views(allowed@), evidence_required));
    r
}

fn validate_unresolved(items: &Vec<UnresolvedTopic>, allowed: &Vec<String>) -> (r: Vec<UnresolvedTopic>)
    ensures
        unresolved_views(r@) == validated_unresolved(unresolved_views(items@), views(allowed@)),
{
    let check = |item: &UnresolvedTopic| -> (o: (UnresolvedTopic, bool))
        ensures
            o.0@ == checked_unresolved(item@, views(allowed@)),
            o.1 == unresolved_kept(o.0@),
    {
        let text = if is_blank_str(item.text.as_str()) { item.topic.clone() } else { item.text.clone() };
        let next = UnresolvedTopic {
            id: item.id.clone(),
            text,
            topic: item.topic.clone(),
            options: copy_strings(&item.options),
            status: owned("No final decision"),
            evidence_ids: kept_evidence_ids(&item.evidence_ids, allowed),
        };
        let keep = !is_blank_str(item.topic.as_str()) && next.evidence_ids.len() > 0;
        (next, keep)
    };
    let r = keep_checked(
        items,
        check,
        Ghost(|u: UnresolvedView| checked_unresolved(u, views(allowed@))),
        Ghost(|u: UnresolvedView| unresolved_kept(u)),
    );
    assert(unresolved_views(r@) =~= validated_unresolved(unresolved_views(items@), views(allowed@)));
    r
}

fn validate_actions(items: &Vec<ActionItem>, allowed: &Vec<String>) -> (r: Vec<ActionItem>)
    ensures
        action_views(r@) == validated_actions(action_views(items@), views(allowed@)),
{
    let check = |item: &ActionItem| -> (o: (ActionItem, bool))
        ensures
            o.0@ == checked_action(item@, views(allowed@)),
            o.1 == action_kept(o.0@),
    {
        let next = ActionItem {
            id: item.id.clone(),
            owner: copy_opt(&item.owner),
            task: item.task.clone(),
            deadline: copy_opt(&item.deadline),
            evidence_ids: kept_evidence_ids(&item.evidence_ids, allowed),
        };
        let keep = !is_blank_str(item.task.as_str()) && next.evidence_ids.len() > 0;
        (next, keep)
    };
    let r = keep_checked(
        items,
        check,
        Ghost(|a: ActionView| checked_action(a, views(allowed@))),
        Ghost(|a: ActionView| action_kept(a)),
    );
    assert(action_views(r@) =~= validated_actions(action_views(items@), views(allowed@)));
    r
}

fn validate_deferred(items: &Vec<DeferredItem>, allowed: &Vec<String>) -> (r: Vec<DeferredItem>)
    ensures
        deferred_views(r@) == validated_deferred(deferred_views(items@), views(allowed@)),
{
    let check = |item: &DeferredItem| -> (o: (DeferredItem, bool))
        ensures
            o.0@ == checked_deferred(item@, views(allowed@)),
            o.1 == deferred_kept(o.0@),
    {
        let next = DeferredItem {
            id: item.id.clone(),
            text: item.text.clone(),
            target: copy_opt(&item.target),
            evidence_ids: kept_evidence_ids(&item.evidence_ids, allowed),
        };
        let keep = !is_blank_str(item.text.as_str()) && next.evidence_ids.len() > 0;
        (next, keep)
    };
    let r = keep_checked(
        items,
        check,
        Ghost(|d: DeferredView| checked_deferred(d, views(allowed@))),
        Ghost(|d: DeferredView| deferred_kept(d)),
    );
    assert(deferred_views(r@) =~= validated_deferred(deferred_views(items@), views(allowed@)));
    r
}

/// The IDs of the given transcript segments, in order.
pub fn transcript_ids(segments: &[TranscriptSegment]) -> (r: Vec<String>)
    ensures
        views(r@) == segment_ids(segments@),
{
    let mut out: Vec<String> = Vec::new();
    let n = segments.len();
    let mut i: usize = 0;
    while i < n
        invariant
            n == segments@.len(),
            i <= n,
            out@.len() == i,
            views(out@) =~= segment_ids(segments@.subrange(0, i as int)),
        decreases n - i,
    {
        let ghost prev = out@;
        out.push(segments[i].id.clone());
        assert(out@ =~= prev.push(segments@[i as int].id));
        assert(segments@.subrange(0, i + 1) =~= segments@.subrange(0, i as int).push(segments@[i as int]));
        assert forall|k: int| 0 <= k < i implies #[trigger] out@[k]@ == segments@[k].id@ by {
            assert(views(prev)[k] == segment_ids(segments@.subrange(0, i as int))[k]);
        }
        assert(views(out@) =~= segment_ids(segments@.subrange(0, i + 1)));
        i = i + 1;
    }
    assert(segments@.subrange(0, n as int) =~= segments@);
    out
}

/// Holds a model-written summary to the transcript: evidence IDs that name
/// no segment are dropped, decisions, tentative decisions, unresolved topics,
/// action items and deferred items without evidence are dropped, items
/// without text are dropped, and every unresolved topic says "No final
/// decision".
pub fn validate_summary(summary: MeetingSummary, segments: &[TranscriptSegment]) -> (r: MeetingSummary)
    ensures
        r.tldr@ == summary.tldr@,
        bullet_views(r.key_points@) == validated_bullets(bullet_views(summary.key_points@), segment_ids(segments@), false),
        bullet_views(r.decisions@) == validated_bullets(bullet_views(summary.decisions@), segment_ids(segments@), true),
        bullet_views(r.tentative_decisions@) == validated_bullets(bullet_views(summary.tentative_decisions@), segment_ids(segments@), true),
        unresolved_views(r.unresolved_topics@) == validated_unresolved(unresolved_views(summary.unresolved_topics@), segment_ids(segments@)),
        action_views(r.action_items@) == validated_actions(action_views(summary.action_items@), segment_ids(segments@)),
        bullet_views(r.open_questions@) == validated_bullets(bullet_views(summary.open_questions@), segment_ids(segments@), false),
        deferred_views(r.deferred@) == validated_deferred(deferred_views(summary.deferred@), segment_ids(segments@)),
{
    let allowed = transcript_ids(segments);
    MeetingSummary {
        key_points: validate_bullets(&summary.key_points, &allowed, false),
        decisions: validate_bullets(&summary.decisions, &allowed, true),
        tentative_decisions: validate_bullets(&summary.tentative_decisions, &allowed, true),
        unresolved_topics: validate_unresolved(&summary.unresolved_topics, &allowed),
        action_items: validate_actions(&summary.action_items, &allowed),
        open_questions: validate_bullets(&summary.open_questions, &allowed, false),
        deferred: validate_deferred(&summary.deferred, &allowed),
        tldr: summary.tldr,
    }
}

} // verus!
