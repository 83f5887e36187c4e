//! Cursor pagination: a pull-driven stream of page items. The stream's
//! state is a cursor; each pull computes the next page request, absorbs the
//! fetched page, yields its items in server order, and decides whether a
//! further page may be fetched. The fetch itself is performed outside and
//! its outcome handed back.

use vstd::prelude::*;
use crate::error::{Error, ErrorV, opt_error_view};
use crate::json::{page_parts_of, split_page};
use crate::text::{strings_view, pairs_view, opt_string_view, clone_strings, clone_pairs};

verus! {

/// Continuation state of a paginated collection.
pub enum Cursor {
    /// No page fetched yet: the first request carries no `after` parameter.
    Start,
    /// Continue from this opaque server-issued token.
    At(String),
    /// The collection is exhausted: no further page may be fetched.
    End,
}

/// Mathematical model of a [`Cursor`].
pub enum CursorV {
    Start,
    At(Seq<char>),
    End,
}

impl View for Cursor {
    type V = CursorV;

    open spec fn view(&self) -> CursorV {
        match self {
            Cursor::Start => CursorV::Start,
            Cursor::At(token) => CursorV::At(token@),
            Cursor::End => CursorV::End,
        }
    }
}

/// The view of an optional query.
pub open spec fn opt_pairs_view(q: Option<Vec<(String, String)>>) -> Option<
    Seq<(Seq<char>, Seq<char>)>,
> {
    match q {
        Some(v) => Some(pairs_view(v@)),
        None => None,
    }
}

/// The query-parameter contribution of a cursor: nothing at the start, an
/// `after` parameter while continuing, and `None` — no request may be made
/// — once the collection is exhausted.
pub open spec fn cursor_query_spec(c: CursorV) -> Option<Seq<(Seq<char>, Seq<char>)>> {
    match c {
        CursorV::Start => Some(Seq::empty()),
        CursorV::At(token) => Some(seq![("after"@, token)]),
        CursorV::End => None,
    }
}

/// The cursor a page's reported continuation decodes to: absence of a
/// token, or an empty one, means the collection is exhausted.
pub open spec fn cursor_from_spec(next: Option<Seq<char>>) -> CursorV {
    match next {
        None => CursorV::End,
        Some(token) => if token.len() == 0 {
            CursorV::End
        } else {
            CursorV::At(token)
        },
    }
}

impl Cursor {
    /// The query parameters this cursor contributes to a page request, or
    /// `None` once the collection is exhausted.
    pub fn query(self) -> (q: Option<Vec<(String, String)>>)
        ensures
            opt_pairs_view(q) == cursor_query_spec(self@),
    {
        match self {
            Cursor::Start => Some(Vec::new()),
            Cursor::At(token) => {
                let mut v: Vec<(String, String)> = Vec::new();
                let ghost t = token@;
                v.push((String::from_str("after"), token));
                proof {
                    assert(pairs_view(v@) =~= seq![("after"@, t)]);
                }
                Some(v)
            },
            Cursor::End => None,
        }
    }
}

impl Default for Cursor {
    /// The default cursor permits no fetch.
    fn default() -> (c: Cursor)
        ensures
            c@ is End,
    {
        Cursor::End
    }
}

impl From<Option<String>> for Cursor {
    /// Decodes the server's pagination object: a missing or empty token
    /// means the collection is exhausted.
    fn from(next: Option<String>) -> (c: Cursor) {
        match next {
            None => Cursor::End,
            Some(token) => if token.as_str().is_empty() {
                Cursor::End
            } else {
                Cursor::At(token)
            },
        }
    }
}

impl vstd::std_specs::convert::FromSpecImpl<Option<String>> for Cursor {
    open spec fn obeys_from_spec() -> bool {
        true
    }

    open spec fn from_spec(next: Option<String>) -> Cursor {
        match next {
            None => Cursor::End,
            Some(token) => if token@.len() == 0 {
                Cursor::End
            } else {
                Cursor::At(token)
            },
        }
    }
}

fn cursor_of_next(next: &Option<String>) -> (c: Cursor)
    ensures
        c@ == cursor_from_spec(opt_string_view(*next)),
{
    match next {
        None => Cursor::End,
        Some(token) => if token.as_str().is_empty() {
            Cursor::End
        } else {
            Cursor::At(token.clone())
        },
    }
}

/// One decoded page: the raw item texts in server order, and the reported
/// continuation token, if any.
pub struct Page {
    pub items: Vec<String>,
    pub next: Option<String>,
}

/// Mathematical model of a [`Page`].
pub struct PageV {
    pub items: Seq<Seq<char>>,
    pub next: Option<Seq<char>>,
}

impl View for Page {
    type V = PageV;

    open spec fn view(&self) -> PageV {
        PageV { items: strings_view(self.items@), next: opt_string_view(self.next) }
    }
}

/// What decoding a success body yields for a page fetch: the page, or the
/// decode failure preserving the raw body.
pub open spec fn decode_page_spec(body: Seq<char>) -> Result<PageV, ErrorV> {
    match page_parts_of(body) {
        Some(p) => Ok(PageV { items: p.0, next: p.1 }),
        None => Err(ErrorV::Decode { body }),
    }
}

/// Decodes a success body into a page — the item texts of its `data`
/// array in server order and the reported continuation token. A body
/// without that shape is the decode failure, carrying the raw body.
pub fn decode_page(body: String) -> (r: Result<Page, Error>)
    ensures
        match decode_page_spec(body@) {
            Ok(p) => r matches Ok(page) && page@ == p,
            Err(e) => r matches Err(err) && err@ == e,
        },
{
    match split_page(body.as_str()) {
        Some((items, next)) => Ok(Page { items, next }),
        None => Err(Error::Decode { body }),
    }
}

/// The cursor after a page is absorbed: an empty page ends the stream even
/// when a continuation was reported; otherwise the reported continuation
/// decides.
pub open spec fn absorb_cursor_spec(p: PageV) -> CursorV {
    if p.items.len() == 0 {
        CursorV::End
    } else {
        cursor_from_spec(p.next)
    }
}

/// The pull-driven pagination stream: owns the cursor progression of one
/// iteration and is not restartable — a fresh one re-iterates from the
/// start.
pub struct Pager {
    pub cursor: Cursor,
}

/// Mathematical model of a [`Pager`].
pub struct PagerV {
    pub cursor: CursorV,
}

impl View for Pager {
    type V = PagerV;

    open spec fn view(&self) -> PagerV {
        PagerV { cursor: self.cursor@ }
    }
}

impl Pager {
    /// A fresh stream, positioned before the first page.
    pub fn new() -> (p: Pager)
        ensures
            p@.cursor is Start,
    {
        Pager { cursor: Cursor::Start }
    }

    /// The cursor's contribution to the next page request, or `None` when
    /// the stream is exhausted and no fetch may happen.
    pub fn next_query(&self) -> (q: Option<Vec<(String, String)>>)
        ensures
            opt_pairs_view(q) == cursor_query_spec(self@.cursor),
    {
        match &self.cursor {
            Cursor::Start => Some(Vec::new()),
            Cursor::At(token) => {
                let mut v: Vec<(String, String)> = Vec::new();
                v.push((String::from_str("after"), token.clone()));
                proof {
                    assert(pairs_view(v@) =~= seq![("after"@, token@)]);
                }
                Some(v)
            },
            Cursor::End => None,
        }
    }

    /// The full query of the next page request — the fixed parameters
    /// followed by the cursor's contribution — or `None` when the stream is
    /// exhausted.
    pub fn next_request(&self, fixed: &Vec<(String, String)>) -> (q: Option<Vec<(String, String)>>)
        ensures
            opt_pairs_view(q) == match cursor_query_spec(self@.cursor) {
                Some(extra) => Some(pairs_view(fixed@) + extra),
                None => None,
            },
    {
        match self.next_query() {
            None => None,
            Some(mut extra) => {
                let ghost extra0 = extra@;
                let mut q = clone_pairs(fixed);
                q.append(&mut extra);
                proof {
                    assert(pairs_view(q@) =~= pairs_view(fixed@) + pairs_view(extra0));
                }
                Some(q)
            },
        }
    }

    /// Absorbs one fetched page: yields its items in server order and
    /// advances the cursor; an empty page ends the stream regardless of any
    /// reported continuation.
    pub fn absorb(&mut self, page: &Page) -> (items: Vec<String>)
        ensures
            final(self)@.cursor == absorb_cursor_spec(page@),
            strings_view(items@) == page@.items,
    {
        let items = clone_strings(&page.items);
        if items.is_empty() {
            self.cursor = Cursor::End;
        } else {
            self.cursor = cursor_of_next(&page.next);
        }
        items
    }

    /// Records a failed fetch: the stream ends at once, and no further
    /// page request will be produced.
    pub fn halt(&mut self)
        ensures
            final(self)@.cursor is End,
    {
        self.cursor = Cursor::End;
    }
}

/// The outcome of one page fetch, as the outside loop observed it.
pub enum FetchOutcome {
    /// The fetch succeeded and decoded to this page.
    Success { page: Page },
    /// The fetch failed terminally with this error.
    Failure { error: Error },
}

/// Mathematical model of a [`FetchOutcome`].
pub enum FetchOutcomeV {
    Success { page: PageV },
    Failure { error: ErrorV },
}

impl View for FetchOutcome {
    type V = FetchOutcomeV;

    open spec fn view(&self) -> FetchOutcomeV {
        match self {
            FetchOutcome::Success { page } => FetchOutcomeV::Success { page: page@ },
            FetchOutcome::Failure { error } => FetchOutcomeV::Failure { error: error@ },
        }
    }
}

/// The views of a sequence of fetch outcomes.
pub open spec fn script_view(s: Seq<FetchOutcome>) -> Seq<FetchOutcomeV> {
    s.map_values(|f: FetchOutcome| f@)
}

/// What one full stream iteration produced.
pub struct RunOutcome {
    /// Every item yielded, in order.
    pub items: Vec<String>,
    /// The terminal error, if a page fetch failed.
    pub error: Option<Error>,
    /// How many page fetches were made.
    pub fetches: usize,
}

/// What one full stream iteration produces, as a fold over the page
/// outcomes the server would answer with, in order.
pub struct StreamResult {
    pub items: Seq<Seq<char>>,
    pub error: Option<ErrorV>,
    pub fetches: nat,
}

/// The stream's semantics against a fixed sequence of page outcomes: pages
/// are fetched strictly in order; a failure ends the stream with that error
/// after the items already yielded; an empty page ends it silently even
/// when a continuation was reported; a missing or empty continuation ends
/// it after the page's items; and otherwise the next page follows.
pub open spec fn paginate_spec(s: Seq<FetchOutcomeV>) -> StreamResult
    decreases s.len(),
{
    if s.len() == 0 {
        StreamResult { items: Seq::empty(), error: None, fetches: 0 }
    } else {
        match s[0] {
            FetchOutcomeV::Failure { error } => StreamResult {
                items: Seq::empty(),
                error: Some(error),
                fetches: 1,
            },
            FetchOutcomeV::Success { page } => {
                if absorb_cursor_spec(page) is End {
                    StreamResult { items: page.items, error: None, fetches: 1 }
                } else {
                    let rest = paginate_spec(s.drop_first());
                    StreamResult {
                        items: page.items + rest.items,
                        error: rest.error,
                        fetches: 1 + rest.fetches,
                    }
                }
            },
        }
    }
}

fn run_with(pager: &mut Pager, script: &Vec<FetchOutcome>, i: usize) -> (r: RunOutcome)
    requires
        i <= script@.len(),
        !(old(pager)@.cursor is End),
    ensures
        strings_view(r.items@) == paginate_spec(script_view(script@).skip(i as int)).items,
        opt_error_view(r.error) == paginate_spec(script_view(script@).skip(i as int)).error,
        r.fetches == paginate_spec(script_view(script@).skip(i as int)).fetches,
        r.fetches <= script@.len() - i,
    decreases script@.len() - i,
{
    let ghost rest_script = script_view(script@).skip(i as int);
    if i == script.len() {
        proof {
            assert(strings_view(Seq::<String>::empty()) =~= Seq::<Seq<char>>::empty());
        }
        return RunOutcome { items: Vec::new(), error: None, fetches: 0 };
    }
    proof {
        assert(rest_script[0] == script@[i as int]@);
    }
    match &script[i] {
        FetchOutcome::Failure { error } => {
            pager.halt();
            proof {
                assert(strings_view(Seq::<String>::empty()) =~= Seq::<Seq<char>>::empty());
            }
            RunOutcome { items: Vec::new(), error: Some(error.duplicate()), fetches: 1 }
        },
        FetchOutcome::Success { page } => {
            let mut items = pager.absorb(page);
            if matches!(&pager.cursor, Cursor::End) {
                RunOutcome { items, error: None, fetches: 1 }
            } else {
                proof {
                    assert(rest_script.drop_first() =~= script_view(script@).skip(i + 1));
                }
                let mut rest = run_with(pager, script, i + 1);
                let ghost items0 = items@;
                items.append(&mut rest.items);
                proof {
                    assert(strings_view(items0 + rest.items@) =~= strings_view(items0)
                        + strings_view(rest.items@));
                }
                RunOutcome { items, error: rest.error, fetches: 1 + rest.fetches }
            }
        },
    }
}

/// Drives a fresh stream against a fixed sequence of fetch outcomes,
/// exactly as the outside loop drives it against live responses, and
/// reports every item yielded in order, the terminal error if any, and how
/// many pages were fetched.
pub fn run_script(script: &Vec<FetchOutcome>) -> (r: RunOutcome)
    ensures
        strings_view(r.items@) == paginate_spec(script_view(script@)).items,
        opt_error_view(r.error) == paginate_spec(script_view(script@)).error,
        r.fetches == paginate_spec(script_view(script@)).fetches,
        r.fetches <= script@.len(),
{
    let mut pager = Pager::new();
    let r = run_with(&mut pager, script, 0);
    proof {
        assert(script_view(script@).skip(0) =~= script_view(script@));
    }
    r
}

/// A page outcome that keeps the stream going: items were yielded and a
/// usable continuation was reported.
pub open spec fn continues(f: FetchOutcomeV) -> bool {
    f matches FetchOutcomeV::Success { page } && page.items.len() > 0 && cursor_from_spec(
        page.next,
    ) is At
}

/// The items of the first `k` page outcomes, in order.
pub open spec fn prefix_items(s: Seq<FetchOutcomeV>, k: int) -> Seq<Seq<char>>
    decreases k,
{
    if k <= 0 {
        Seq::empty()
    } else {
        prefix_items(s, k - 1) + (match s[k - 1] {
            FetchOutcomeV::Success { page } => page.items,
            FetchOutcomeV::Failure { .. } => Seq::empty(),
        })
    }
}

proof fn lemma_prefix_items_shift(s: Seq<FetchOutcomeV>, k: int)
    requires
        1 <= k <= s.len(),
    ensures
        prefix_items(s, k) == (match s[0] {
            FetchOutcomeV::Success { page } => page.items,
            FetchOutcomeV::Failure { .. } => Seq::empty(),
        }) + prefix_items(s.drop_first(), k - 1),
    decreases k,
{
    let head = match s[0] {
        FetchOutcomeV::Success { page } => page.items,
        FetchOutcomeV::Failure { .. } => Seq::<Seq<char>>::empty(),
    };
    if k == 1 {
        assert(prefix_items(s, 0) =~= Seq::<Seq<char>>::empty());
        assert(prefix_items(s.drop_first(), 0) =~= Seq::<Seq<char>>::empty());
        assert(prefix_items(s, 1) =~= head + prefix_items(s.drop_first(), 0));
    } else {
        lemma_prefix_items_shift(s, k - 1);
        assert(s.drop_first()[k - 2] == s[k - 1]);
        assert(prefix_items(s, k) =~= head + prefix_items(s.drop_first(), k - 1));
    }
}

/// Law: a page with no items ends the stream at once — even when the
/// server reported a continuation cursor — after exactly the fetches made
/// so far, with no error and with the items of the pages before it.
pub proof fn lemma_empty_page_terminates(s: Seq<FetchOutcomeV>, k: int)
    requires
        0 <= k < s.len(),
        forall|j: int| 0 <= j < k ==> continues(#[trigger] s[j]),
        s[k] matches FetchOutcomeV::Success { page } && page.items.len() == 0,
    ensures
        paginate_spec(s).items == prefix_items(s, k),
        paginate_spec(s).error is None,
        paginate_spec(s).fetches == k + 1,
    decreases k,
{
    if k == 0 {
        assert(paginate_spec(s).items =~= prefix_items(s, 0));
    } else {
        let rest = s.drop_first();
        assert(continues(s[0]));
        assert forall|j: int| 0 <= j < k - 1 implies continues(#[trigger] rest[j]) by {
            assert(rest[j] == s[j + 1]);
        }
        assert(rest[k - 1] == s[k]);
        lemma_empty_page_terminates(rest, k - 1);
        lemma_prefix_items_shift(s, k);
        assert(paginate_spec(s).items =~= prefix_items(s, k));
    }
}

/// Law: a failed page fetch ends the stream at once with that very error
/// as its terminal element — the pages before it are yielded in order and
/// no later page is fetched.
pub proof fn lemma_error_ends_stream(s: Seq<FetchOutcomeV>, k: int, e: ErrorV)
    requires
        0 <= k < s.len(),
        forall|j: int| 0 <= j < k ==> continues(#[trigger] s[j]),
        s[k] == (FetchOutcomeV::Failure { error: e }),
    ensures
        paginate_spec(s).items == prefix_items(s, k),
        paginate_spec(s).error == Some(e),
        paginate_spec(s).fetches == k + 1,
    decreases k,
{
    if k == 0 {
        assert(paginate_spec(s).items =~= prefix_items(s, 0));
    } else {
        let rest = s.drop_first();
        assert(continues(s[0]));
        assert forall|j: int| 0 <= j < k - 1 implies continues(#[trigger] rest[j]) by {
            assert(rest[j] == s[j + 1]);
        }
        assert(rest[k - 1] == s[k]);
        lemma_error_ends_stream(rest, k - 1, e);
        lemma_prefix_items_shift(s, k);
        assert(paginate_spec(s).items =~= prefix_items(s, k));
    }
}

/// Law: the stream's outcome is a function of the page sequence alone, so
/// re-running a fresh stream against the same pages reproduces the
/// identical item order.
pub proof fn lemma_rerun_reproduces(s1: Seq<FetchOutcomeV>, s2: Seq<FetchOutcomeV>)
    requires
        s1 == s2,
    ensures
        paginate_spec(s1).items == paginate_spec(s2).items,
{
}

} // verus!
