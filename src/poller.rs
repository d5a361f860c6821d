use vstd::prelude::*;
use crate::relay::{started_from_text, Relay};
use crate::text::{chars_of, contains, occurs_in_range};

verus! {

/// An inbound notification that names the bot's account.
#[derive(Clone, Debug)]
pub struct Mention {
    pub id: String,
    pub author: String,
    pub text: String,
    pub timestamp: String,
}

/// The ids of the mentions handled so far in this process.
pub struct ProcessedSet {
    ids: Vec<String>,
}

impl ProcessedSet {
    pub closed spec fn ids(&self) -> Set<Seq<char>> {
        Set::new(|s: Seq<char>| exists|i: int| 0 <= i < self.ids@.len() && self.ids@[i]@ == s)
    }

    pub fn new() -> (r: ProcessedSet)
        ensures
            r.ids() == Set::<Seq<char>>::empty(),
    {
        let r = ProcessedSet { ids: Vec::new() };
        assert(r.ids() =~= Set::<Seq<char>>::empty());
        r
    }

    pub fn contains(&self, id: &String) -> (r: bool)
        ensures
            r == self.ids().contains(id@),
    {
        let mut i: usize = 0;
        while i < self.ids.len()
            invariant
                i <= self.ids@.len(),
                forall|k: int| 0 <= k < i ==> self.ids@[k]@ != id@,
            decreases self.ids.len() - i,
        {
            if self.ids[i] == *id {
                return true;
            }
            i = i + 1;
        }
        false
    }

    pub fn insert(&mut self, id: String)
        ensures
            final(self).ids() == old(self).ids().insert(id@),
    {
        self.ids.push(id);
        proof {
            let n = self.ids@.len() - 1;
            assert forall|s: Seq<char>| #[trigger] self.ids().contains(s) <==> old(self).ids().insert(id@).contains(s) by {
                if old(self).ids().contains(s) {
                    let i = choose|i: int| 0 <= i < old(self).ids@.len() && old(self).ids@[i]@ == s;
                    assert(self.ids@[i]@ == s);
                }
                if self.ids().contains(s) && s != id@ {
                    let i = choose|i: int| 0 <= i < self.ids@.len() && self.ids@[i]@ == s;
                    assert(i != n);
                    assert(old(self).ids@[i]@ == s);
                }
                assert(self.ids@[n]@ == id@);
            }
            assert(self.ids() =~= old(self).ids().insert(id@));
        }
    }
}

/// Whether `text` holds `trigger`, as an exact, case-sensitive substring.
pub fn has_trigger(text: &str, trigger: &str) -> (r: bool)
    ensures
        r == contains(text@, trigger@),
{
    let t = chars_of(text);
    let p = chars_of(trigger);
    let r = occurs_in_range(&t, 0, t.len(), &p);
    assert(t@.subrange(0, t@.len() as int) =~= t@);
    r
}

/// How many mentions one listing asks for.
pub const PAGE_SIZE: u8 = 50;

/// Seconds to wait between two cycles.
pub const POLL_INTERVAL_SECS: u64 = 5;

/// Decides, mention by mention, which are relayed, and remembers which have
/// been handled. It alone holds the set of handled ids.
pub struct MentionPoller {
    trigger: String,
    processed: ProcessedSet,
}

/// What `begin` does: a mention is taken up exactly when its id is new and
/// its text holds the trigger; a taken-up id is remembered at once, so that
/// whatever comes of it, it is not taken up again.
pub open spec fn begin_post(before: MentionPoller, m: Mention, after: MentionPoller, r: Option<Relay>) -> bool {
    let admitted = !before.processed().contains(m.id@) && contains(m.text@, before.trigger());
    &&& after.trigger() == before.trigger()
    &&& (r is Some <==> admitted)
    &&& admitted ==> after.processed() == before.processed().insert(m.id@)
    &&& !admitted ==> after.processed() == before.processed()
    &&& r matches Some(relay) ==> relay.wf() && started_from_text(m.text@, relay)
}

impl MentionPoller {
    pub closed spec fn trigger(&self) -> Seq<char> {
        self.trigger@
    }

    pub closed spec fn processed(&self) -> Set<Seq<char>> {
        self.processed.ids()
    }

    pub fn new(trigger: String) -> (r: MentionPoller)
        ensures
            r.trigger() == trigger@,
            r.processed() == Set::<Seq<char>>::empty(),
    {
        MentionPoller { trigger, processed: ProcessedSet::new() }
    }

    /// Whether the mention with this id has been handled in this process.
    pub fn is_processed(&self, id: &String) -> (r: bool)
        ensures
            r == self.processed().contains(id@),
    {
        self.processed.contains(id)
    }

    /// Filters one listed mention and, where it qualifies, starts relaying it.
    /// A mention already handled, or whose text lacks the trigger phrase, is
    /// dropped and leaves no trace.
    pub fn begin(&mut self, m: &Mention) -> (r: Option<Relay>)
        ensures
            begin_post(*old(self), *m, *final(self), r),
    {
        if self.processed.contains(&m.id) {
            return None;
        }
        if !has_trigger(m.text.as_str(), self.trigger.as_str()) {
            return None;
        }
        self.processed.insert(m.id.clone());
        Some(Relay::start(m.text.as_str()))
    }
}

/// A mention whose text lacks the trigger phrase is dropped: nothing is
/// relayed and the handled set stays as it was.
pub proof fn law_untriggered_dropped(before: MentionPoller, m: Mention, after: MentionPoller, r: Option<Relay>)
    requires
        begin_post(before, m, after, r),
        !contains(m.text@, before.trigger()),
    ensures
        r is None,
        after.processed() == before.processed(),
{
}

/// The same mention id is never taken up twice: of two `begin` calls in a row
/// on mentions with one id, at most one starts a relay, so at most one relay
/// can reach publishing.
pub proof fn law_taken_up_once(
    before: MentionPoller,
    m1: Mention,
    after: MentionPoller,
    r1: Option<Relay>,
    m2: Mention,
    last: MentionPoller,
    r2: Option<Relay>,
)
    requires
        begin_post(before, m1, after, r1),
        begin_post(after, m2, last, r2),
        m2.id@ == m1.id@,
    ensures
        !(r1 is Some && r2 is Some),
{
}

/// Handled ids are never forgotten: once in the set, an id stays through any `begin`.
pub proof fn law_processed_grows(before: MentionPoller, m: Mention, after: MentionPoller, r: Option<Relay>)
    requires
        begin_post(before, m, after, r),
    ensures
        before.processed().subset_of(after.processed()),
{
}

} // verus!
