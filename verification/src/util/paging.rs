//! The page iterator: a lazy, forward-only sequence over a paged collection.
//!
//! The service hands out a list in pages, each with a cursor to the next one
//! as long as there is one. The iterator keeps the items of the current page,
//! already mapped, and hands them out one by one; when they run out it says
//! which page to fetch next. Fetching is the caller's work: it sends the
//! request that [`PageIterator::pull`] asks for and gives what came of it, the
//! page or the failure, to [`PageIterator::accept`].

use crate::util::api_helper::get;
use crate::util::errors::OxidError;
use crate::util::request::fetching;
use crate::util::request::owned_text;
use crate::util::request::str_view;
use crate::util::request::text_view;
use crate::util::request::Request;
use crate::util::request::RequestView;
use core::marker::PhantomData;
use std::collections::VecDeque;
use vstd::prelude::*;

verus! {

/// Where an iterator stands.
#[derive(Clone, Copy, Debug, PartialEq, Eq, Structural)]
pub enum Phase {
    /// No page has been fetched yet.
    Fresh,
    /// A page has been fetched; its items are being handed out.
    Holding,
    /// The service gave no further cursor and every item has been handed out.
    Exhausted,
    /// A page could not be fetched; the sequence broke off before its end.
    Failed,
}

/// One page as the service sends it: a batch of items and the cursor to the
/// next page, absent on the last one.
pub struct Page<T> {
    pub items: Vec<T>,
    pub next_page_cursor: Option<String>,
}

/// What a pull gives.
pub enum Pull<U> {
    /// The next item of the sequence.
    Item(U),
    /// Nothing is at hand: fetch the page that this request asks for and hand
    /// it to [`PageIterator::accept`].
    Fetch(Request),
    /// The sequence has ended.
    End,
    /// The sequence broke off when a page could not be fetched.
    Failed,
}

/// What a pull gives, with the request taken by what it stands for.
pub enum PullView<U> {
    Item(U),
    Fetch(RequestView),
    End,
    Failed,
}

impl<U> View for Pull<U> {
    type V = PullView<U>;

    open spec fn view(&self) -> PullView<U> {
        match self {
            Pull::Item(item) => PullView::Item(*item),
            Pull::Fetch(request) => PullView::Fetch(request@),
            Pull::End => PullView::End,
            Pull::Failed => PullView::Failed,
        }
    }
}

/// Tells whether an address already has a query part.
pub open spec fn has_query(url: Seq<char>) -> bool {
    url.contains('?')
}

/// The address of the page that `cursor` points to: the cursor is appended as
/// one more query parameter, after `&` where the address has a query part
/// already and after `?` where it has none.
pub open spec fn page_address(url: Seq<char>, cursor: Seq<char>) -> Seq<char> {
    if has_query(url) {
        url + "&cursor="@ + cursor
    } else {
        url + "?cursor="@ + cursor
    }
}

/// Tells whether an address already has a query part.
pub fn contains_query(url: &str) -> (found: bool)
    ensures
        found == has_query(url@),
{
    broadcast use vstd::string::group_string_axioms;

    for c in it: url.chars()
        invariant
            it.seq() == url@,
            forall|j: int| 0 <= j < it.index() ==> url@[j] != '?',
    {
        if c == '?' {
            return true;
        }
    }
    false
}

/// Writes the address of the page that `cursor` points to.
pub fn page_url(url: &str, cursor: &str) -> (out: String)
    ensures
        out@ == page_address(url@, cursor@),
{
    let mut out = String::from_str(url);
    if contains_query(url) {
        out.append("&cursor=");
    } else {
        out.append("?cursor=");
    }
    out.append(cursor);
    out
}

/// The per-item mapping of a paged list: what each item of a page is turned
/// into before it is handed out.
pub trait PageMapper<T, U> {
    /// What the mapping makes of an item. Every mapping says so for itself;
    /// of one that does not, nothing is known.
    open spec fn mapped(&self, item: T) -> U {
        arbitrary()
    }

    /// Maps one item.
    fn map_item(&self, item: T) -> (out: U)
        ensures
            out == self.mapped(item),
    ;
}

/// The mapping that hands each item on as it is.
#[derive(Clone, Copy, Debug)]
pub struct IdentityMapper;

impl<T> PageMapper<T, T> for IdentityMapper {
    open spec fn mapped(&self, item: T) -> T {
        item
    }

    fn map_item(&self, item: T) -> (out: T) {
        item
    }
}

/// The items of a page after mapping, in the order of the page.
pub open spec fn mapped_items<T, U, M: PageMapper<T, U>>(mapper: M, items: Seq<T>) -> Seq<U> {
    items.map_values(|item: T| mapper.mapped(item))
}

/// What an iterator stands for.
pub struct PageIteratorView<U> {
    /// The address of the list.
    pub url: Seq<char>,
    /// The credential presented on each fetch, if any.
    pub roblosecurity: Option<Seq<char>>,
    /// The mapped items at hand that have not been handed out yet.
    pub batch: Seq<U>,
    /// The cursor to the page after the current one, if there is one.
    pub next_page_cursor: Option<Seq<char>>,
    pub phase: Phase,
}

/// A list at `url` of which nothing has been fetched yet.
pub open spec fn fresh_list<U>(url: Seq<char>, roblosecurity: Option<Seq<char>>) -> PageIteratorView<
    U,
> {
    PageIteratorView {
        url,
        roblosecurity,
        batch: Seq::empty(),
        next_page_cursor: None,
        phase: Phase::Fresh,
    }
}

impl<U> PageIteratorView<U> {
    /// An iterator that has nothing at hand and knows where to get more: it
    /// has not fetched yet, or it holds a cursor and has handed out all of the
    /// current page.
    pub open spec fn awaits_page(self) -> bool {
        ||| self.phase == Phase::Fresh
        ||| self.phase == Phase::Holding && self.batch.len() == 0 && self.next_page_cursor is Some
    }

    /// What a pull gives, and the iterator it leaves behind.
    ///
    /// While items of the current page are at hand, the first of them comes
    /// out and the rest stay. When none is at hand, a fresh iterator asks for
    /// the first page and one that holds a cursor asks for the page it points
    /// to; neither changes. One that holds no cursor becomes exhausted and
    /// ends. An exhausted iterator ends again, a failed one says that it
    /// failed.
    pub open spec fn pulled(self) -> (PullView<U>, Self) {
        match self.phase {
            Phase::Exhausted => (PullView::End, self),
            Phase::Failed => (PullView::Failed, self),
            Phase::Fresh => (PullView::Fetch(fetching(self.url, self.roblosecurity)), self),
            Phase::Holding => if self.batch.len() > 0 {
                (PullView::Item(self.batch[0]), PageIteratorView { batch: self.batch.skip(1), ..self })
            } else if self.next_page_cursor is Some {
                (
                    PullView::Fetch(
                        fetching(
                            page_address(self.url, self.next_page_cursor->Some_0),
                            self.roblosecurity,
                        ),
                    ),
                    self,
                )
            } else {
                (PullView::End, PageIteratorView { phase: Phase::Exhausted, ..self })
            },
        }
    }

    /// The iterator after it has taken a page of these mapped items and this
    /// cursor: the items are at hand, the cursor is the page's, and the
    /// iterator is exhausted at once if the page has neither items nor
    /// cursor, holding otherwise.
    pub open spec fn accepted(self, items: Seq<U>, next_page_cursor: Option<Seq<char>>) -> Self {
        PageIteratorView {
            batch: items,
            next_page_cursor,
            phase: if items.len() == 0 && next_page_cursor is None {
                Phase::Exhausted
            } else {
                Phase::Holding
            },
            ..self
        }
    }

    /// The iterator after a page could not be fetched.
    pub open spec fn failed(self) -> Self {
        PageIteratorView { phase: Phase::Failed, ..self }
    }
}

/// A lazy sequence of the items of a paged list, each mapped by `M`.
pub struct PageIterator<T, U, M> {
    url: String,
    mapper: M,
    roblosecurity: Option<String>,
    batch: VecDeque<U>,
    next_page_cursor: Option<String>,
    phase: Phase,
    wire: PhantomData<T>,
}

impl<T, U, M> View for PageIterator<T, U, M> {
    type V = PageIteratorView<U>;

    closed spec fn view(&self) -> PageIteratorView<U> {
        PageIteratorView {
            url: self.url@,
            roblosecurity: text_view(self.roblosecurity),
            batch: self.batch@,
            next_page_cursor: text_view(self.next_page_cursor),
            phase: self.phase,
        }
    }
}

impl<T, U, M> PageIterator<T, U, M> {
    /// The per-item mapping.
    pub closed spec fn mapper(self) -> M {
        self.mapper
    }
}

impl<T, U, M: PageMapper<T, U>> PageIterator<T, U, M> {
    /// A fresh iterator over the list at `url`, which maps each item with
    /// `mapper` and presents `roblosecurity` on each fetch.
    pub fn new(url: String, mapper: M, roblosecurity: Option<&str>) -> (out: Self)
        ensures
            out@ == fresh_list::<U>(url@, str_view(roblosecurity)),
            out.mapper() == mapper,
    {
        PageIterator {
            url,
            mapper,
            roblosecurity: owned_text(roblosecurity),
            batch: VecDeque::new(),
            next_page_cursor: None,
            phase: Phase::Fresh,
            wire: PhantomData,
        }
    }

    /// Where the iterator stands.
    pub fn phase(&self) -> (out: Phase)
        ensures
            out == self@.phase,
    {
        self.phase
    }

    /// Tells whether the iterator has nothing at hand and knows where to get
    /// more, so that the next thing it takes is a page.
    pub fn awaits_page(&self) -> (out: bool)
        ensures
            out == self@.awaits_page(),
    {
        match self.phase {
            Phase::Fresh => true,
            Phase::Holding => self.batch.len() == 0 && self.next_page_cursor.is_some(),
            _ => false,
        }
    }

    /// Asks for the next item: gives what [`PageIteratorView::pulled`] says
    /// and leaves the iterator that it says.
    pub fn pull(&mut self) -> (out: Pull<U>)
        ensures
            final(self).mapper() == old(self).mapper(),
            (out@, final(self)@) == old(self)@.pulled(),
    {
        match self.phase {
            Phase::Exhausted => Pull::End,
            Phase::Failed => Pull::Failed,
            Phase::Fresh => Pull::Fetch(get(self.url.clone(), credential_of(&self.roblosecurity))),
            Phase::Holding => {
                match self.batch.pop_front() {
                    Some(item) => Pull::Item(item),
                    None => {
                        match &self.next_page_cursor {
                            Some(cursor) => Pull::Fetch(
                                get(
                                    page_url(self.url.as_str(), cursor.as_str()),
                                    credential_of(&self.roblosecurity),
                                ),
                            ),
                            None => {
                                self.phase = Phase::Exhausted;
                                Pull::End
                            },
                        }
                    },
                }
            },
        }
    }

    /// Takes what fetching the page that the last pull asked for has given.
    ///
    /// Of a page, every item is mapped, in order, and the mapped items become
    /// the items at hand; the page's cursor becomes the cursor. A page without
    /// items and without a cursor exhausts the iterator at once; any other
    /// page leaves it holding. A failure breaks the sequence off: the iterator
    /// is failed from then on, which is not an end, and the failure is handed
    /// back for the consumer to see.
    pub fn accept(&mut self, fetched: Result<Page<T>, OxidError>) -> (out: Result<(), OxidError>)
        requires
            old(self)@.awaits_page(),
        ensures
            final(self).mapper() == old(self).mapper(),
            match fetched {
                Ok(page) => {
                    &&& out == Ok::<(), OxidError>(())
                    &&& final(self)@ == old(self)@.accepted(
                        mapped_items(old(self).mapper(), page.items@),
                        text_view(page.next_page_cursor),
                    )
                },
                Err(failure) => {
                    &&& out == Err::<(), OxidError>(failure)
                    &&& final(self)@ == old(self)@.failed()
                },
            },
    {
        match fetched {
            Ok(page) => {
                let Page { items, next_page_cursor } = page;
                let ghost source = items@;
                let mut batch: VecDeque<U> = VecDeque::new();
                for item in it: items
                    invariant
                        it.seq() == source,
                        batch@.len() == it.index(),
                        forall|i: int|
                            0 <= i < it.index() ==> #[trigger] batch@[i] == self.mapper.mapped(
                                source[i],
                            ),
                {
                    batch.push_back(self.mapper.map_item(item));
                }
                assert(batch@ =~= mapped_items(self.mapper, source));
                self.phase = if batch.len() == 0 && next_page_cursor.is_none() {
                    Phase::Exhausted
                } else {
                    Phase::Holding
                };
                self.batch = batch;
                self.next_page_cursor = next_page_cursor;
                Ok(())
            },
            Err(failure) => {
                self.phase = Phase::Failed;
                Err(failure)
            },
        }
    }

    /// Pulls as a consumer does against a service whose answers are known
    /// beforehand: whenever the iterator asks for a page, the first of
    /// `answers` is handed in. What comes out, what the iterator is left as
    /// and which answers are left over are as [`next`] says.
    pub fn next_scripted(&mut self, answers: &mut VecDeque<Result<Page<T>, OxidError>>) -> (out:
        Option<Result<U, OxidError>>)
        ensures
            final(self).mapper() == old(self).mapper(),
            (out, final(self)@, answer_views(old(self).mapper(), final(answers)@)) == next(
                old(self)@,
                answer_views(old(self).mapper(), old(answers)@),
            ),
    {
        loop
            invariant
                self.mapper() == old(self).mapper(),
                next(self@, answer_views(self.mapper(), answers@)) == next(
                    old(self)@,
                    answer_views(old(self).mapper(), old(answers)@),
                ),
            decreases answers@.len(),
        {
            let ghost before = answer_views(self.mapper(), answers@);
            match self.pull() {
                Pull::Item(item) => {
                    return Some(Ok(item));
                },
                Pull::End => {
                    return None;
                },
                Pull::Failed => {
                    return None;
                },
                Pull::Fetch(_) => {
                    match answers.pop_front() {
                        Some(fetched) => {
                            let taken = self.accept(fetched);
                            assert(answer_views(self.mapper(), answers@) =~= before.skip(1));
                            match taken {
                                Ok(_) => {},
                                Err(failure) => {
                                    return Some(Err(failure));
                                },
                            }
                        },
                        None => {
                            return None;
                        },
                    }
                },
            }
        }
    }
}

/// The credential to present, if any.
fn credential_of(roblosecurity: &Option<String>) -> (out: Option<&str>)
    ensures
        str_view(out) == text_view(*roblosecurity),
{
    match roblosecurity {
        Some(value) => Some(value.as_str()),
        None => None,
    }
}

/// One page as the service hands it out, its items already mapped.
pub struct PageView<U> {
    pub items: Seq<U>,
    pub next_page_cursor: Option<Seq<char>>,
}

/// One answer of a service as an iterator with this mapper takes it: the page
/// with its items mapped, or the failure.
pub open spec fn answer_view<T, U, M: PageMapper<T, U>>(
    mapper: M,
    answer: Result<Page<T>, OxidError>,
) -> Result<PageView<U>, OxidError> {
    match answer {
        Ok(page) => Ok(
            PageView {
                items: mapped_items(mapper, page.items@),
                next_page_cursor: text_view(page.next_page_cursor),
            },
        ),
        Err(failure) => Err(failure),
    }
}

/// The answers of a service as an iterator with this mapper takes them.
pub open spec fn answer_views<T, U, M: PageMapper<T, U>>(
    mapper: M,
    answers: Seq<Result<Page<T>, OxidError>>,
) -> Seq<Result<PageView<U>, OxidError>> {
    answers.map_values(|answer: Result<Page<T>, OxidError>| answer_view(mapper, answer))
}

/// What a consumer gets from one pull when the service gives `answers` in
/// order: the consumer pulls, hands in the next answer whenever the iterator
/// asks for a page, and pulls again. A failed fetch comes out as the failure.
/// If the iterator asks and no answer is left, nothing comes out and the
/// iterator goes on waiting. The result is what came out, the iterator as it
/// is left, and the answers that have not been used.
pub open spec fn next<U>(
    view: PageIteratorView<U>,
    answers: Seq<Result<PageView<U>, OxidError>>,
) -> (Option<Result<U, OxidError>>, PageIteratorView<U>, Seq<Result<PageView<U>, OxidError>>)
    decreases answers.len(),
{
    let (pull, after) = view.pulled();
    match pull {
        PullView::Item(item) => (Some(Ok(item)), after, answers),
        PullView::Fetch(_) => if answers.len() == 0 {
            (None, after, answers)
        } else {
            match answers[0] {
                Ok(page) => next(
                    after.accepted(page.items, page.next_page_cursor),
                    answers.skip(1),
                ),
                Err(failure) => (Some(Err(failure)), after.failed(), answers.skip(1)),
            }
        },
        _ => (None, after, answers),
    }
}

/// A service that never fails: each of these pages as an answer.
pub open spec fn served<U>(pages: Seq<PageView<U>>) -> Seq<Result<PageView<U>, OxidError>> {
    pages.map_values(|page: PageView<U>| Ok::<PageView<U>, OxidError>(page))
}

/// The list that a run of pages spells: the items of each page in order, up
/// to and including the first page that has no cursor.
pub open spec fn listing<U>(pages: Seq<PageView<U>>) -> Seq<U>
    decreases pages.len(),
{
    if pages.len() == 0 {
        Seq::empty()
    } else if pages[0].next_page_cursor is None {
        pages[0].items
    } else {
        pages[0].items + listing(pages.skip(1))
    }
}

/// A run of pages that comes to an end: one of them has no cursor.
pub open spec fn ends<U>(pages: Seq<PageView<U>>) -> bool {
    exists|i: int| 0 <= i < pages.len() && (#[trigger] pages[i]).next_page_cursor is None
}

/// What is still to come from an iterator when the service has `pages` yet to
/// hand out: the items at hand, then the list that the pages spell if the
/// iterator will ask for them.
pub open spec fn to_come<U>(view: PageIteratorView<U>, pages: Seq<PageView<U>>) -> Seq<U> {
    match view.phase {
        Phase::Fresh => listing(pages),
        Phase::Holding => if view.next_page_cursor is Some {
            view.batch + listing(pages)
        } else {
            view.batch
        },
        _ => Seq::empty(),
    }
}

/// The service can answer whatever the iterator will ask: if the iterator
/// will fetch again, the pages yet to hand out come to an end.
pub open spec fn in_step<U>(view: PageIteratorView<U>, pages: Seq<PageView<U>>) -> bool {
    (view.phase == Phase::Fresh || (view.phase == Phase::Holding && view.next_page_cursor is Some))
        ==> ends(pages)
}

/// The iterator and the pages left after one pull of a consumer whose service
/// never fails.
pub open spec fn after_next<U>(view: PageIteratorView<U>, pages: Seq<PageView<U>>) -> (
    PageIteratorView<U>,
    Seq<PageView<U>>,
)
    decreases pages.len(),
{
    let (pull, after) = view.pulled();
    if pull is Fetch && pages.len() > 0 {
        after_next(after.accepted(pages[0].items, pages[0].next_page_cursor), pages.skip(1))
    } else {
        (after, pages)
    }
}

/// The iterator and the pages left after `n` pulls of a consumer whose
/// service never fails.
pub open spec fn after_pulls<U>(view: PageIteratorView<U>, pages: Seq<PageView<U>>, n: nat) -> (
    PageIteratorView<U>,
    Seq<PageView<U>>,
)
    decreases n,
{
    if n == 0 {
        (view, pages)
    } else {
        let (after, rest) = after_next(view, pages);
        after_pulls(after, rest, (n - 1) as nat)
    }
}

/// The first `n` things that come out for a consumer whose service never
/// fails, or as many as come out before nothing does.
pub open spec fn taken<U>(view: PageIteratorView<U>, pages: Seq<PageView<U>>, n: nat) -> Seq<
    Result<U, OxidError>,
>
    decreases n,
{
    if n == 0 {
        Seq::empty()
    } else {
        match next(view, served(pages)).0 {
            Some(out) => seq![out] + taken(
                after_next(view, pages).0,
                after_next(view, pages).1,
                (n - 1) as nat,
            ),
            None => Seq::empty(),
        }
    }
}

/// A list of items as what comes out when none of them fails.
pub open spec fn all_ok<U>(items: Seq<U>) -> Seq<Result<U, OxidError>> {
    items.map_values(|item: U| Ok::<U, OxidError>(item))
}

/// What [`after_next`] gives is what [`next`] leaves when every answer of the
/// service is a page.
pub proof fn lemma_after_next<U>(view: PageIteratorView<U>, pages: Seq<PageView<U>>)
    ensures
        next(view, served(pages)).1 == after_next(view, pages).0,
        next(view, served(pages)).2 == served(after_next(view, pages).1),
    decreases pages.len(),
{
    let (pull, after) = view.pulled();
    if pull is Fetch && pages.len() > 0 {
        assert(served(pages).skip(1) =~= served(pages.skip(1)));
        lemma_after_next(
            after.accepted(pages[0].items, pages[0].next_page_cursor),
            pages.skip(1),
        );
    }
}

proof fn lemma_after_a_page<U>(view: PageIteratorView<U>, pages: Seq<PageView<U>>)
    requires
        in_step(view, pages),
        view.pulled().0 is Fetch,
    ensures
        pages.len() > 0,
        in_step(
            view.pulled().1.accepted(pages[0].items, pages[0].next_page_cursor),
            pages.skip(1),
        ),
        to_come(
            view.pulled().1.accepted(pages[0].items, pages[0].next_page_cursor),
            pages.skip(1),
        ) == to_come(view, pages),
{
    let last: int = choose|i: int|
        0 <= i < pages.len() && (#[trigger] pages[i]).next_page_cursor is None;
    if pages[0].next_page_cursor is Some {
        assert(pages.skip(1)[last - 1] == pages[last]);
    }
}

/// Each pull of a consumer whose service never fails gives the first item of
/// what is still to come and leaves the rest to come, in the same order; when
/// nothing is to come it gives nothing, and an iterator that has not failed
/// is then exhausted.
pub proof fn lemma_next_is_first_to_come<U>(view: PageIteratorView<U>, pages: Seq<PageView<U>>)
    requires
        in_step(view, pages),
    ensures
        in_step(after_next(view, pages).0, after_next(view, pages).1),
        view.phase != Phase::Failed ==> after_next(view, pages).0.phase != Phase::Failed,
        to_come(view, pages).len() > 0 ==> {
            &&& next(view, served(pages)).0 == Some(
                Ok::<U, OxidError>(to_come(view, pages)[0]),
            )
            &&& to_come(after_next(view, pages).0, after_next(view, pages).1) == to_come(
                view,
                pages,
            ).skip(1)
        },
        to_come(view, pages).len() == 0 ==> {
            &&& next(view, served(pages)).0 is None
            &&& to_come(after_next(view, pages).0, after_next(view, pages).1).len() == 0
            &&& view.phase != Phase::Failed ==> after_next(view, pages).0.phase
                == Phase::Exhausted
        },
    decreases pages.len(),
{
    let (pull, after) = view.pulled();
    if pull is Fetch {
        lemma_after_a_page(view, pages);
        assert(served(pages).skip(1) =~= served(pages.skip(1)));
        lemma_next_is_first_to_come(
            after.accepted(pages[0].items, pages[0].next_page_cursor),
            pages.skip(1),
        );
    }
}

/// A consumer whose service never fails gets what is to come, item by item
/// and in order: its first `n` pulls give the first `n` items of it.
pub proof fn lemma_taken_is_prefix_to_come<U>(
    view: PageIteratorView<U>,
    pages: Seq<PageView<U>>,
    n: nat,
)
    requires
        in_step(view, pages),
        n <= to_come(view, pages).len(),
    ensures
        taken(view, pages, n) == all_ok(to_come(view, pages).take(n as int)),
        in_step(after_pulls(view, pages, n).0, after_pulls(view, pages, n).1),
        to_come(after_pulls(view, pages, n).0, after_pulls(view, pages, n).1) == to_come(
            view,
            pages,
        ).skip(n as int),
        view.phase != Phase::Failed ==> after_pulls(view, pages, n).0.phase != Phase::Failed,
    decreases n,
{
    if n > 0 {
        lemma_next_is_first_to_come(view, pages);
        let (after, rest) = after_next(view, pages);
        lemma_taken_is_prefix_to_come(after, rest, (n - 1) as nat);
    }
}

/// A fresh iterator over pages that come to an end hands out the list that
/// the pages spell, each item once and in order, and then ends: the pull
/// after the last item gives nothing and leaves the iterator exhausted.
pub proof fn lemma_fresh_iterator_lists_the_pages<U>(
    url: Seq<char>,
    roblosecurity: Option<Seq<char>>,
    pages: Seq<PageView<U>>,
)
    requires
        ends(pages),
    ensures
        ({
            let fresh = fresh_list::<U>(url, roblosecurity);
            let count: nat = listing(pages).len();
            let (last, rest) = after_pulls(fresh, pages, count);
            &&& taken(fresh, pages, count) == all_ok(listing(pages))
            &&& next(last, served(rest)).0 is None
            &&& next(last, served(rest)).1.phase == Phase::Exhausted
        }),
{
    let fresh = fresh_list::<U>(url, roblosecurity);
    let count: nat = listing(pages).len();
    lemma_taken_is_prefix_to_come(fresh, pages, count);
    let (last, rest) = after_pulls(fresh, pages, count);
    lemma_next_is_first_to_come(last, rest);
    lemma_after_next(last, rest);
}

/// A fetch that fails comes out as that failure, once, and leaves the
/// iterator failed: the next pull gives nothing more, and the iterator is
/// failed and not exhausted.
pub proof fn lemma_failure_surfaces<U>(
    view: PageIteratorView<U>,
    failure: OxidError,
    answers: Seq<Result<PageView<U>, OxidError>>,
)
    requires
        view.awaits_page(),
        answers.len() > 0,
        answers[0] == Err::<PageView<U>, OxidError>(failure),
    ensures
        next(view, answers).0 == Some(Err::<U, OxidError>(failure)),
        next(view, answers).1 == view.failed(),
        next(view, answers).2 == answers.skip(1),
        next(view.failed(), answers.skip(1)).0 is None,
        next(view.failed(), answers.skip(1)).1.phase == Phase::Failed,
{
}

/// An exhausted iterator stays exhausted and a failed one stays failed:
/// neither ever asks for a page or gives an item again.
pub proof fn lemma_the_end_is_final<U>(view: PageIteratorView<U>)
    requires
        view.phase == Phase::Exhausted || view.phase == Phase::Failed,
    ensures
        view.pulled().1 == view,
        view.phase == Phase::Exhausted ==> view.pulled().0 == PullView::<U>::End,
        view.phase == Phase::Failed ==> view.pulled().0 == PullView::<U>::Failed,
{
}

} // verus!
