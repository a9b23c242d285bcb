//! Reconciliation of finalized history: paging backwards through the
//! program's transaction signatures until the stored checkpoint, then
//! replaying the successful ones oldest first.
use vstd::prelude::*;

verus! {

/// Signatures requested per page; a shorter page is the last one.
pub const SIGNATURE_PAGE_LIMIT: usize = 1000;

/// One entry of a signature page, newest first.
#[derive(Clone, Debug)]
pub struct SignatureEntry {
    pub signature: String,
    /// The transaction failed; its logs carry no committed events.
    pub failed: bool,
}

/// The mathematical value of a [`SignatureEntry`].
pub struct SignatureEntryView {
    pub signature: Seq<char>,
    pub failed: bool,
}

impl View for SignatureEntry {
    type V = SignatureEntryView;

    open spec fn view(&self) -> SignatureEntryView {
        SignatureEntryView { signature: self.signature@, failed: self.failed }
    }
}

/// The values of a page.
pub open spec fn page_view(page: Seq<SignatureEntry>) -> Seq<SignatureEntryView> {
    page.map_values(|e: SignatureEntry| e@)
}

/// The texts of a list of strings.
pub open spec fn texts(v: Seq<String>) -> Seq<Seq<char>> {
    v.map_values(|s: String| s@)
}

/// The signatures of the successful transactions of a page, in page order.
pub open spec fn successful_signatures(page: Seq<SignatureEntryView>) -> Seq<Seq<char>>
    decreases page.len(),
{
    if page.len() == 0 {
        Seq::empty()
    } else {
        let earlier = successful_signatures(page.drop_last());
        if page.last().failed {
            earlier
        } else {
            earlier.push(page.last().signature)
        }
    }
}

/// Whether a page contains the checkpoint signature.
pub open spec fn page_reaches(page: Seq<SignatureEntryView>, checkpoint: Option<Seq<char>>) -> bool {
    checkpoint matches Some(c) && exists|i: int| 0 <= i < page.len() && #[trigger] page[i].signature == c
}

/// Progress of a backwards walk through the program's history.
pub struct HistoryScan {
    /// Signature of the last transaction stored, if any.
    pub checkpoint: Option<String>,
    /// Where the next page starts: before this signature.
    pub before: Option<String>,
    /// Successful signatures found so far, newest first.
    pub collected: Vec<String>,
    /// Whether the walk has reached the checkpoint or the oldest history.
    pub complete: bool,
}

/// The text of an optional string.
pub open spec fn opt_text(s: Option<String>) -> Option<Seq<char>> {
    match s {
        Some(t) => Some(t@),
        None => None,
    }
}

impl HistoryScan {
    /// A walk that has read nothing yet.
    pub fn new(checkpoint: Option<String>) -> (scan: HistoryScan)
        ensures
            opt_text(scan.checkpoint) == opt_text(checkpoint),
            scan.before is None,
            scan.collected@.len() == 0,
            !scan.complete,
    {
        HistoryScan { checkpoint, before: None, collected: Vec::new(), complete: false }
    }

    /// Takes in the next page (newest first). The next page starts before
    /// the page's oldest signature; the successful signatures are kept, and
    /// the walk is complete once a page holds the checkpoint (which is kept
    /// and replayed) or is shorter than the page limit.
    pub fn add_page(&mut self, page: &Vec<SignatureEntry>)
        ensures
            opt_text(final(self).checkpoint) == opt_text(old(self).checkpoint),
            opt_text(final(self).before) == if page@.len() > 0 {
                Some(page@.last().signature@)
            } else {
                None
            },
            texts(final(self).collected@) == texts(old(self).collected@) + successful_signatures(
                page_view(page@),
            ),
            final(self).complete == (page_reaches(page_view(page@), opt_text(old(self).checkpoint))
                || page@.len() < SIGNATURE_PAGE_LIMIT),
    {
        let ghost start = texts(self.collected@);
        let mut reached = false;
        let mut i: usize = 0;
        while i < page.len()
            invariant
                i <= page@.len(),
                opt_text(self.checkpoint) == opt_text(old(self).checkpoint),
                start == texts(old(self).collected@),
                texts(self.collected@) == start + successful_signatures(
                    page_view(page@.take(i as int)),
                ),
                reached == page_reaches(page_view(page@.take(i as int)), opt_text(self.checkpoint)),
            decreases page@.len() - i,
        {
            let entry = &page[i];
            let ghost before_entry = page_view(page@.take(i as int));
            let ghost after_entry = page_view(page@.take(i + 1));
            assert(after_entry.drop_last() =~= before_entry);
            assert(after_entry.last() == entry@);
            match &self.checkpoint {
                Some(c) => {
                    if entry.signature == *c {
                        reached = true;
                        assert(after_entry[i as int].signature == c@);
                    }
                },
                None => {},
            }
            assert(reached == page_reaches(after_entry, opt_text(self.checkpoint))) by {
                if page_reaches(after_entry, opt_text(self.checkpoint)) && !(entry@.signature
                    == opt_text(self.checkpoint)->0) {
                    let j = choose|j: int|
                        0 <= j < after_entry.len() && #[trigger] after_entry[j].signature
                            == opt_text(self.checkpoint)->0;
                    assert(j < i);
                    assert(before_entry[j] == after_entry[j]);
                }
                if page_reaches(before_entry, opt_text(self.checkpoint)) {
                    let j = choose|j: int|
                        0 <= j < before_entry.len() && #[trigger] before_entry[j].signature
                            == opt_text(self.checkpoint)->0;
                    assert(after_entry[j] == before_entry[j]);
                }
            }
            if !entry.failed {
                let ghost prev = self.collected@;
                self.collected.push(entry.signature.clone());
                assert(texts(self.collected@) =~= texts(prev).push(entry.signature@));
                assert(texts(self.collected@) =~= start + successful_signatures(after_entry));
            } else {
                assert(texts(self.collected@) =~= start + successful_signatures(after_entry));
            }
            i = i + 1;
        }
        assert(page@.take(page@.len() as int) =~= page@);
        self.before = if page.len() > 0 {
            Some(page[page.len() - 1].signature.clone())
        } else {
            None
        };
        self.complete = reached || page.len() < SIGNATURE_PAGE_LIMIT;
    }

    /// The collected signatures in replay order: oldest first.
    pub fn replay_order(&self) -> (order: Vec<String>)
        ensures
            texts(order@) == texts(self.collected@).reverse(),
    {
        let mut order: Vec<String> = Vec::new();
        let mut i = self.collected.len();
        while i > 0
            invariant
                i <= self.collected@.len(),
                texts(order@) == texts(self.collected@).subrange(i as int, self.collected@.len() as int).reverse(),
            decreases i,
        {
            i = i - 1;
            let ghost prev = order@;
            order.push(self.collected[i].clone());
            assert(texts(order@) =~= texts(prev).push(self.collected@[i as int]@));
            assert(texts(order@) =~= texts(self.collected@).subrange(
                i as int,
                self.collected@.len() as int,
            ).reverse());
        }
        assert(texts(self.collected@).subrange(0, self.collected@.len() as int) =~= texts(
            self.collected@,
        ));
        order
    }
}

} // verus!
