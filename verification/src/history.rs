//! The history fetcher: collates backward-paginated message history into the
//! complete oldest-first sequence of non-bot messages.
//!
//! The platform serves history newest-first, up to a page at a time, each
//! page requested with a cursor "older than this message". The caller drives
//! the paging loop and feeds each page (or a fetch failure) into a
//! `HistoryFetch`; the machine accumulates the non-bot messages, tracks the
//! next cursor, and finally reverses the accumulation into original
//! chronological order.

use vstd::prelude::*;

use crate::model::HistoricalMessage;

verus! {

/// The messages of one page that survive filtering: those not authored by a
/// bot, in the page's own (newest-first) order.
pub open spec fn survivors(page: Seq<HistoricalMessage>) -> Seq<HistoricalMessage> {
    page.filter(|m: HistoricalMessage| !m.author.is_bot)
}

/// The accumulation across pages: each page's survivors, concatenated in
/// fetch order (newest page first, newest-first within each page).
pub open spec fn gathered_of(pages: Seq<Seq<HistoricalMessage>>) -> Seq<HistoricalMessage> {
    pages.map_values(|p: Seq<HistoricalMessage>| survivors(p)).flatten()
}

/// The fetcher's result for a run that saw the given pages: the concatenation
/// of every page's non-bot messages, reversed into oldest-first order.
pub open spec fn collated(pages: Seq<Seq<HistoricalMessage>>) -> Seq<HistoricalMessage> {
    gathered_of(pages).reverse()
}

/// The paging state machine. `pages` is the ghost record of every page fed
/// in so far; `gathered` always holds exactly their accumulated survivors.
pub struct HistoryFetch {
    /// Non-bot messages accumulated so far, newest first.
    pub gathered: Vec<HistoricalMessage>,
    /// The pagination cursor for the next request: the identifier of the
    /// oldest message seen, or `None` before the first page.
    pub cursor: Option<u64>,
    /// Whether paging has ended (an empty page or a fetch failure).
    pub finished: bool,
    /// Every page fed in so far, in fetch order.
    pub pages: Ghost<Seq<Seq<HistoricalMessage>>>,
}

impl HistoryFetch {
    /// The machine's invariant: the accumulation matches the recorded pages.
    pub open spec fn wf(self) -> bool {
        self.gathered@ == gathered_of(self.pages@)
    }

    /// A fresh fetch: no pages seen, no cursor, not finished.
    pub fn new() -> (r: Self)
        ensures
            r.wf(),
            r.pages@ == Seq::<Seq<HistoricalMessage>>::empty(),
            r.gathered@ == Seq::<HistoricalMessage>::empty(),
            r.cursor is None,
            !r.finished,
    {
        let r = HistoryFetch {
            gathered: Vec::new(),
            cursor: None,
            finished: false,
            pages: Ghost(Seq::empty()),
        };
        proof {
            assert(r.pages@.map_values(|p: Seq<HistoricalMessage>| survivors(p)) =~= Seq::<
                Seq<HistoricalMessage>,
            >::empty());
            assert(gathered_of(r.pages@) =~= Seq::<HistoricalMessage>::empty());
        }
        r
    }

    /// The cursor the next page request must carry.
    pub fn request_cursor(&self) -> (c: Option<u64>)
        ensures
            c == self.cursor,
    {
        self.cursor
    }

    /// Whether paging has ended and the history can be taken.
    pub fn is_finished(&self) -> (f: bool)
        ensures
            f == self.finished,
    {
        self.finished
    }

    /// Feeds one fetched page into the machine. The page's non-bot messages
    /// are appended to the accumulation; an empty page ends the paging (no
    /// further request is to be issued); a non-empty page moves the cursor to
    /// its last (oldest) message.
    pub fn note_page(&mut self, page: Vec<HistoricalMessage>)
        requires
            old(self).wf(),
            !old(self).finished,
        ensures
            final(self).wf(),
            final(self).pages@ == old(self).pages@.push(page@),
            final(self).gathered@ == old(self).gathered@ + survivors(page@),
            final(self).finished == (page@.len() == 0),
            page@.len() > 0 ==> final(self).cursor == Some(page@.last().id),
            page@.len() == 0 ==> final(self).cursor == old(self).cursor,
    {
        let ghost page_view: Seq<HistoricalMessage> = page@;
        let ghost old_gathered: Seq<HistoricalMessage> = self.gathered@;
        if page.len() == 0 {
            self.finished = true;
            self.pages = Ghost(self.pages@.push(page_view));
            proof {
                lemma_gathered_of_push(old(self).pages@, page_view);
                assert(survivors(page_view) =~= Seq::<HistoricalMessage>::empty());
                assert(self.gathered@ =~= old_gathered + survivors(page_view));
            }
            return ;
        }
        self.cursor = Some(page[page.len() - 1].id);
        let mut rest = page;
        while rest.len() > 0
            invariant
                rest@.len() <= page_view.len(),
                page_view.len() > 0,
                rest@ == page_view.skip(page_view.len() - rest@.len()),
                self.gathered@ == old_gathered + survivors(
                    page_view.take(page_view.len() - rest@.len()),
                ),
                self.cursor == Some(page_view.last().id),
                self.pages == old(self).pages,
                self.finished == old(self).finished,
            decreases rest@.len(),
        {
            let ghost k: int = page_view.len() - rest@.len();
            let m = rest.remove(0);
            proof {
                assert(m == page_view[k]);
                assert(rest@ =~= page_view.skip(k + 1));
                lemma_survivors_take_step(page_view, k);
            }
            if !m.author.is_bot {
                self.gathered.push(m);
                proof {
                    assert(self.gathered@ =~= old_gathered + survivors(page_view.take(k + 1)));
                }
            }
        }
        proof {
            assert(page_view.take(page_view.len() as int) =~= page_view);
        }
        self.pages = Ghost(self.pages@.push(page_view));
        proof {
            lemma_gathered_of_push(old(self).pages@, page_view);
        }
    }

    /// Records a fetch failure: paging ends early and whatever has been
    /// accumulated stands as the result.
    pub fn note_failure(&mut self)
        ensures
            *final(self) == (HistoryFetch { finished: true, ..*old(self) }),
    {
        self.finished = true;
    }

    /// Takes the collated history: the accumulated non-bot messages reversed
    /// into oldest-first order.
    pub fn into_history(self) -> (r: Vec<HistoricalMessage>)
        requires
            self.wf(),
        ensures
            r@ == collated(self.pages@),
    {
        let ghost g: Seq<HistoricalMessage> = self.gathered@;
        let mut src = self.gathered;
        let mut out: Vec<HistoricalMessage> = Vec::new();
        proof {
            assert(src@ =~= g.take(src@.len() as int));
            assert(out@ =~= g.skip(src@.len() as int).reverse());
        }
        while src.len() > 0
            invariant
                src@.len() <= g.len(),
                src@ == g.take(src@.len() as int),
                out@ == g.skip(src@.len() as int).reverse(),
            decreases src@.len(),
        {
            let ghost n: int = src@.len() as int;
            let x = src.pop().unwrap();
            out.push(x);
            proof {
                assert(x == g[n - 1]);
                assert(src@ =~= g.take(n - 1));
                assert(out@ =~= g.skip(n - 1).reverse());
            }
        }
        proof {
            assert(g.skip(0).reverse() =~= g.reverse());
        }
        out
    }
}

/// Appending one page extends the accumulation by that page's survivors.
proof fn lemma_gathered_of_push(pages: Seq<Seq<HistoricalMessage>>, page: Seq<HistoricalMessage>)
    ensures
        gathered_of(pages.push(page)) == gathered_of(pages) + survivors(page),
{
    broadcast use vstd::seq_lib::group_seq_lib_default;

    let f = |p: Seq<HistoricalMessage>| survivors(p);
    assert(pages.push(page).map_values(f) =~= pages.map_values(f).push(survivors(page)));
    assert(pages.map_values(f).push(survivors(page)).flatten() =~= pages.map_values(f).flatten()
        + survivors(page)) by {
        pages.map_values(f).lemma_flatten_push(survivors(page));
    }
}

/// Filtering one element more: the survivors of a one-longer prefix are the
/// survivors so far, extended by the next message when it is not a bot's.
proof fn lemma_survivors_take_step(page: Seq<HistoricalMessage>, k: int)
    requires
        0 <= k < page.len(),
    ensures
        !page[k].author.is_bot ==> survivors(page.take(k + 1)) == survivors(page.take(k)).push(
            page[k],
        ),
        page[k].author.is_bot ==> survivors(page.take(k + 1)) == survivors(page.take(k)),
{
    let pred = |m: HistoricalMessage| !m.author.is_bot;
    assert(page.take(k + 1).drop_last() =~= page.take(k));
    assert(page.take(k + 1).last() == page[k]);
    assert(page.take(k + 1).len() == k + 1);
    reveal_with_fuel(Seq::filter, 2);
    assert(page.take(k + 1).filter(pred) == if pred(page[k]) {
        page.take(k).filter(pred).push(page[k])
    } else {
        page.take(k).filter(pred)
    });
}

/// An empty first page yields an empty history.
pub proof fn lemma_empty_first_page(pages: Seq<Seq<HistoricalMessage>>)
    requires
        pages.len() == 1,
        pages[0].len() == 0,
    ensures
        collated(pages).len() == 0,
{
    let f = |p: Seq<HistoricalMessage>| survivors(p);
    assert(pages[0].filter(|m: HistoricalMessage| !m.author.is_bot) =~= Seq::<
        HistoricalMessage,
    >::empty());
    assert(pages.map_values(f) =~= seq![Seq::<HistoricalMessage>::empty()]);
    assert(pages.map_values(f).flatten() =~= Seq::<HistoricalMessage>::empty()) by {
        pages.map_values(f).lemma_flatten_one_element();
    }
}

} // verus!
