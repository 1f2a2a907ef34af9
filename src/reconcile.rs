//! The reconciliation loop's decisions: what a tick publishes given what was
//! fetched and what was last published, and what it remembers afterwards.
//! Fetching and publishing are the caller's; the outcome of each is handed
//! back here.
use vstd::prelude::*;

use crate::track::{status_for, status_text, SourceError, UnifiedTrack};

verus! {

/// What a tick does after fetching.
#[derive(Debug)]
pub enum TickAction {
    /// Nothing to send: the fetch failed or the text is unchanged.
    Skip,
    /// Send this text to the sink.
    Publish(String),
}

/// The text a tick sends, given the last published text and the rendered
/// text of its fetch (`None` where the fetch failed).
pub open spec fn tick_sends(last: Seq<char>, fetched: Option<Seq<char>>) -> Option<Seq<char>> {
    match fetched {
        None => None,
        Some(t) => if t == last {
            None
        } else {
            Some(t)
        },
    }
}

/// The last published text after a tick whose publish, if any, succeeded
/// exactly when `delivered`.
pub open spec fn after_tick(last: Seq<char>, fetched: Option<Seq<char>>, delivered: bool) -> Seq<
    char,
> {
    match tick_sends(last, fetched) {
        Some(t) => if delivered {
            t
        } else {
            last
        },
        None => last,
    }
}

/// What the sink receives over ticks whose fetches render to `texts`, when
/// every fetch and every publish succeeds, starting from `last`.
pub open spec fn sent_over(last: Seq<char>, texts: Seq<Seq<char>>) -> Seq<Seq<char>>
    decreases texts.len(),
{
    if texts.len() == 0 {
        Seq::empty()
    } else {
        let rest = sent_over(after_tick(last, Some(texts[0]), true), texts.drop_first());
        match tick_sends(last, Some(texts[0])) {
            Some(t) => seq![t] + rest,
            None => rest,
        }
    }
}

/// The last published text after those ticks.
pub open spec fn last_over(last: Seq<char>, texts: Seq<Seq<char>>) -> Seq<char>
    decreases texts.len(),
{
    if texts.len() == 0 {
        last
    } else {
        last_over(after_tick(last, Some(texts[0]), true), texts.drop_first())
    }
}

pub open spec fn text_view(text: Option<String>) -> Option<Seq<char>> {
    match text {
        Some(t) => Some(t@),
        None => None,
    }
}

/// The loop's memory: the last text the sink accepted. Empty at start, so
/// the first tick always publishes a non-empty text.
pub struct Reconciler {
    pub last_published: String,
}

impl Reconciler {
    pub fn new() -> (r: Self)
        ensures
            r.last_published@ == Seq::<char>::empty(),
    {
        Reconciler { last_published: String::new() }
    }

    /// The action for a tick whose text is `text`, or whose fetch failed.
    pub fn decide_text(&self, text: Option<String>) -> (r: TickAction)
        ensures
            tick_sends(self.last_published@, text_view(text)) matches Some(t) ==> (r matches TickAction::Publish(
                x,
            ) && x@ == t),
            tick_sends(self.last_published@, text_view(text)) is None ==> r is Skip,
    {
        match text {
            None => TickAction::Skip,
            Some(t) => if t == self.last_published {
                TickAction::Skip
            } else {
                TickAction::Publish(t)
            },
        }
    }

    /// The action for a tick, from what the source returned: on a failed
    /// fetch nothing; otherwise the status text, where it differs from the
    /// last one published.
    pub fn decide(
        &self,
        fetched: Result<Option<UnifiedTrack>, SourceError>,
        template: &str,
        default: &str,
    ) -> (r: TickAction)
        ensures
            fetched is Err ==> r is Skip,
            fetched matches Ok(f) ==> {
                let text = status_text(template@, default@, f);
                &&& text == self.last_published@ ==> r is Skip
                &&& text != self.last_published@ ==> (r matches TickAction::Publish(x) && x@
                    == text)
            },
    {
        match fetched {
            Err(_) => TickAction::Skip,
            Ok(f) => {
                let text = status_for(template, default, &f);
                self.decide_text(Some(text))
            },
        }
    }

    /// Takes the outcome of publishing `text`: only an accepted text becomes
    /// the last published one, so a rejected one is tried again next tick.
    pub fn record(&mut self, text: String, delivered: bool)
        ensures
            delivered ==> final(self).last_published == text,
            !delivered ==> final(self).last_published == old(self).last_published,
    {
        if delivered {
            self.last_published = text;
        }
    }
}

/// Once a text has been published, a tick that renders the same text sends
/// nothing: publishing is never repeated for an unchanged text.
pub proof fn lemma_unchanged_text_is_quiet(last: Seq<char>, text: Seq<char>)
    ensures
        tick_sends(after_tick(last, Some(text), true), Some(text)) is None,
{
}

/// A failed fetch leaves the last published text alone, and the tick after
/// it behaves exactly as if the failed tick had never run.
pub proof fn lemma_fetch_failure_isolated(
    last: Seq<char>,
    delivered: bool,
    next: Option<Seq<char>>,
    next_delivered: bool,
)
    ensures
        after_tick(last, None, delivered) == last,
        tick_sends(after_tick(last, None, delivered), next) == tick_sends(last, next),
        after_tick(after_tick(last, None, delivered), next, next_delivered) == after_tick(
            last,
            next,
            next_delivered,
        ),
{
}

/// A rejected publish leaves the last published text alone, so the next
/// tick that renders the same text sends it again.
pub proof fn lemma_rejected_publish_retried(last: Seq<char>, text: Seq<char>)
    requires
        text != last,
    ensures
        after_tick(last, Some(text), false) == last,
        tick_sends(after_tick(last, Some(text), false), Some(text)) == Some(text),
{
}

/// Over ticks where everything succeeds, the sink never receives the same
/// text twice in a row, its first text differs from the starting one, and
/// the loop ends remembering the last rendered text.
pub proof fn lemma_dedup(last: Seq<char>, texts: Seq<Seq<char>>)
    ensures
        forall|i: int|
            0 <= i < sent_over(last, texts).len() - 1 ==> #[trigger] sent_over(last, texts)[i]
                != sent_over(last, texts)[i + 1],
        sent_over(last, texts).len() > 0 ==> sent_over(last, texts)[0] != last,
        texts.len() > 0 ==> last_over(last, texts) == texts.last(),
        sent_over(last, texts).len() > 0 ==> sent_over(last, texts).last() == last_over(
            last,
            texts,
        ),
        sent_over(last, texts).len() == 0 ==> last_over(last, texts) == last,
        sent_over(last, texts).len() <= texts.len(),
    decreases texts.len(),
{
    if texts.len() > 0 {
        let next = after_tick(last, Some(texts[0]), true);
        let rest = texts.drop_first();
        lemma_dedup(next, rest);
        assert(next == texts[0]);
        if rest.len() > 0 {
            assert(rest.last() == texts.last());
        } else {
            assert(texts.last() == texts[0]);
        }
        let s = sent_over(last, texts);
        let sr = sent_over(next, rest);
        if texts[0] != last {
            assert(s == seq![texts[0]] + sr);
            if sr.len() > 0 {
                assert(s.last() == sr.last());
            }
            assert forall|i: int| 0 <= i < s.len() - 1 implies #[trigger] s[i] != s[i + 1] by {
                if i > 0 {
                    assert(s[i] == sr[i - 1]);
                    assert(s[i + 1] == sr[i]);
                }
            }
        }
    }
}

} // verus!
