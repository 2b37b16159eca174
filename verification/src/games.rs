//! The list of games: which of them a page shows, and in what order.
use crate::note::{GameEntry, GameOrigin};
use crate::note::GameEntryView;
use crate::signer::{game_columns, opening_name, opening_of, summarize};
use vstd::prelude::*;
use vstd::utf8::encode_utf8;

verus! {

/// The number of games on a page.
pub const PAGE_SIZE: usize = 5;

/// A column of the list that the games can be ordered by.
#[derive(Clone, Copy, Debug, PartialEq, Eq, Structural)]
pub enum SortColumn {
    Date,
    Opening,
    White,
    Black,
    Outcome,
    Event,
}

/// The order of the list: a column, and whether its order is turned round.
#[derive(Clone, Copy, Debug, PartialEq, Eq, Structural)]
pub enum SortGamesBy {
    Date(bool),
    Opening(bool),
    White(bool),
    Black(bool),
    Outcome(bool),
    Event(bool),
}

impl SortGamesBy {
    /// The column of an order.
    pub open spec fn column_of(self) -> SortColumn {
        match self {
            SortGamesBy::Date(_) => SortColumn::Date,
            SortGamesBy::Opening(_) => SortColumn::Opening,
            SortGamesBy::White(_) => SortColumn::White,
            SortGamesBy::Black(_) => SortColumn::Black,
            SortGamesBy::Outcome(_) => SortColumn::Outcome,
            SortGamesBy::Event(_) => SortColumn::Event,
        }
    }

    /// Whether an order is turned round.
    pub open spec fn is_reversed(self) -> bool {
        match self {
            SortGamesBy::Date(r) => r,
            SortGamesBy::Opening(r) => r,
            SortGamesBy::White(r) => r,
            SortGamesBy::Black(r) => r,
            SortGamesBy::Outcome(r) => r,
            SortGamesBy::Event(r) => r,
        }
    }

    /// The order by a column.
    pub open spec fn of(column: SortColumn, reversed: bool) -> SortGamesBy {
        match column {
            SortColumn::Date => SortGamesBy::Date(reversed),
            SortColumn::Opening => SortGamesBy::Opening(reversed),
            SortColumn::White => SortGamesBy::White(reversed),
            SortColumn::Black => SortGamesBy::Black(reversed),
            SortColumn::Outcome => SortGamesBy::Outcome(reversed),
            SortColumn::Event => SortGamesBy::Event(reversed),
        }
    }

    /// The order a list starts with: by date, newest first.
    pub fn initial() -> (res: Self)
        ensures
            res == SortGamesBy::Date(true),
    {
        SortGamesBy::Date(true)
    }

    /// The column of the order.
    pub fn column(&self) -> (res: SortColumn)
        ensures
            res == self.column_of(),
    {
        match self {
            SortGamesBy::Date(_) => SortColumn::Date,
            SortGamesBy::Opening(_) => SortColumn::Opening,
            SortGamesBy::White(_) => SortColumn::White,
            SortGamesBy::Black(_) => SortColumn::Black,
            SortGamesBy::Outcome(_) => SortColumn::Outcome,
            SortGamesBy::Event(_) => SortColumn::Event,
        }
    }

    /// Whether the order is turned round.
    pub fn reversed(&self) -> (res: bool)
        ensures
            res == self.is_reversed(),
    {
        match self {
            SortGamesBy::Date(r) => *r,
            SortGamesBy::Opening(r) => *r,
            SortGamesBy::White(r) => *r,
            SortGamesBy::Black(r) => *r,
            SortGamesBy::Outcome(r) => *r,
            SortGamesBy::Event(r) => *r,
        }
    }

    /// The order after a click on a column's button: the column that
    /// orders the list is turned round, any other column takes over, turned
    /// round to begin with.
    pub fn toggled(&self, column: SortColumn) -> (res: Self)
        ensures
            res == if self.column_of() == column {
                SortGamesBy::of(column, !self.is_reversed())
            } else {
                SortGamesBy::of(column, true)
            },
    {
        let reversed = if self.column() == column {
            !self.reversed()
        } else {
            true
        };
        match column {
            SortColumn::Date => SortGamesBy::Date(reversed),
            SortColumn::Opening => SortGamesBy::Opening(reversed),
            SortColumn::White => SortGamesBy::White(reversed),
            SortColumn::Black => SortGamesBy::Black(reversed),
            SortColumn::Outcome => SortGamesBy::Outcome(reversed),
            SortColumn::Event => SortGamesBy::Event(reversed),
        }
    }
}

/// Two clicks on one column bring the order back.
pub proof fn lemma_two_clicks_restore_the_order(sort: SortGamesBy)
    ensures
        ({
            let column = sort.column_of();
            let once = SortGamesBy::of(column, !sort.is_reversed());
            SortGamesBy::of(column, !once.is_reversed()) == sort
        }),
{
}

/// The number of pages that `count` games fill, the last one perhaps in part.
pub fn total_pages(count: usize) -> (pages: usize)
    ensures
        pages == (count + PAGE_SIZE - 1) / PAGE_SIZE as int,
        pages * PAGE_SIZE >= count,
        count > 0 ==> (pages - 1) * PAGE_SIZE < count,
{
    if count % PAGE_SIZE == 0 {
        count / PAGE_SIZE
    } else {
        count / PAGE_SIZE + 1
    }
}

/// The page before `page`, where there is one.
pub fn previous_page(page: usize) -> (res: Option<usize>)
    ensures
        res == if page > 0 {
            Some((page - 1) as usize)
        } else {
            None
        },
{
    if page > 0 {
        Some(page - 1)
    } else {
        None
    }
}

/// The page after `page`, which can be gone to as long as `page` is below
/// the number of pages.
pub fn next_page(page: usize, total_pages: usize) -> (res: Option<usize>)
    ensures
        res == if page < total_pages {
            Some((page + 1) as usize)
        } else {
            None
        },
{
    if page < total_pages {
        Some(page + 1)
    } else {
        None
    }
}

/// Whether the button to the page before is switched off.
pub fn previous_is_disabled(page: usize) -> (res: bool)
    ensures
        res == (page == 0),
{
    page == 0
}

/// Whether the button to the page after is switched off.
pub fn next_is_disabled(page: usize, total_pages: usize) -> (res: bool)
    ensures
        res == (page == total_pages),
{
    page == total_pages
}

/// What the list shows of a game and orders it by.
#[derive(Debug, PartialEq, Eq)]
pub struct GameRow {
    pub origin: GameOrigin,
    /// The day of the game, counted from a fixed day.
    pub date: i32,
    pub opening: String,
    pub white: String,
    pub black: String,
    pub outcome: String,
    pub event: String,
}

/// The name shown for an opening: its name, or the empty text where none
/// is known, which puts the games without a known opening first.
pub open spec fn opening_text(opening: Option<Seq<char>>) -> Seq<char> {
    match opening {
        Some(name) => name,
        None => Seq::empty(),
    }
}

/// Whether a row shows an entry: its origin, and the opening, the players,
/// the outcome and the event that the entry's content holds. The day is
/// read from the content too, but a game without a date is given the day on
/// which it is read.
pub open spec fn shows(row: GameRow, entry: GameEntryView) -> bool {
    &&& row.origin == entry.origin
    &&& row.opening@ == opening_text(opening_of(entry.note.content))
    &&& (row.white@, row.black@, row.outcome@, row.event@) == game_columns(entry.note.content)
}

impl GameRow {
    /// The row of a game of this origin, given what was read from its
    /// content: the day, the two players, the outcome and the event, and
    /// the opening where one is known.
    pub fn new(
        origin: GameOrigin,
        read: (i32, String, String, String, String),
        opening: Option<String>,
    ) -> (row: Self)
        ensures
            row.origin == origin,
            row.date == read.0,
            row.white == read.1,
            row.black == read.2,
            row.outcome == read.3,
            row.event == read.4,
            row.opening@ == opening_text(opening.deep_view()),
    {
        let opening = match opening {
            Some(name) => name,
            None => String::new(),
        };
        GameRow {
            origin,
            date: read.0,
            opening,
            white: read.1,
            black: read.2,
            outcome: read.3,
            event: read.4,
        }
    }
}

/// One row for each entry, in the order of the entries.
pub fn rows_of(entries: &Vec<GameEntry>) -> (rows: Vec<GameRow>)
    ensures
        rows.len() == entries.len(),
        forall|i: int| 0 <= i < rows.len() ==> shows(#[trigger] rows[i], entries[i]@),
{
    let mut rows: Vec<GameRow> = Vec::new();
    let mut i: usize = 0;
    while i < entries.len()
        invariant
            i <= entries.len(),
            rows.len() == i,
            forall|k: int| 0 <= k < i ==> shows(#[trigger] rows[k], entries[k]@),
        decreases entries.len() - i,
    {
        let entry = &entries[i];
        let read = summarize(entry.note.content.as_str());
        let opening = opening_name(entry.note.content.as_str());
        rows.push(GameRow::new(entry.origin, read, opening));
        i += 1;
    }
    rows
}

/// Whether `a` stands before `b` in the order of texts: byte by byte, a
/// text standing before every longer text that begins with it.
pub open spec fn bytes_before(a: Seq<u8>, b: Seq<u8>) -> bool
    decreases a.len(),
{
    if b.len() == 0 {
        false
    } else if a.len() == 0 {
        true
    } else if a[0] != b[0] {
        a[0] < b[0]
    } else {
        bytes_before(a.skip(1), b.skip(1))
    }
}

/// Whether the text `a` stands before the text `b`.
pub open spec fn text_before(a: Seq<char>, b: Seq<char>) -> bool {
    bytes_before(encode_utf8(a), encode_utf8(b))
}

/// Whether row `a` stands before row `b` by a column.
pub open spec fn comes_before(a: GameRow, b: GameRow, column: SortColumn) -> bool {
    match column {
        SortColumn::Date => a.date < b.date,
        SortColumn::Opening => text_before(a.opening@, b.opening@),
        SortColumn::White => text_before(a.white@, b.white@),
        SortColumn::Black => text_before(a.black@, b.black@),
        SortColumn::Outcome => text_before(a.outcome@, b.outcome@),
        SortColumn::Event => text_before(a.event@, b.event@),
    }
}

/// Whether row `a` stands before row `b` in an order.
pub open spec fn sorts_before(a: GameRow, b: GameRow, sort: SortGamesBy) -> bool {
    if sort.is_reversed() {
        comes_before(b, a, sort.column_of())
    } else {
        comes_before(a, b, sort.column_of())
    }
}

/// Whether the row at `i` is listed before the row at `j`: it sorts before
/// it, or neither sorts before the other and it came first.
pub open spec fn listed_before(rows: Seq<GameRow>, sort: SortGamesBy, i: int, j: int) -> bool {
    sorts_before(rows[i], rows[j], sort) || (!sorts_before(rows[j], rows[i], sort) && i < j)
}

/// Whether a row passes the filter: every row passes no filter, and the
/// rows of an origin pass the filter for it.
pub open spec fn passes(row: GameRow, filter: Option<GameOrigin>) -> bool {
    match filter {
        Some(origin) => row.origin == origin,
        None => true,
    }
}

/// Whether `order` lists the places of exactly the rows that pass the
/// filter, each once, in the order asked for, rows that sort alike staying
/// in the order they came in.
pub open spec fn is_listing(
    rows: Seq<GameRow>,
    filter: Option<GameOrigin>,
    sort: SortGamesBy,
    order: Seq<usize>,
) -> bool {
    &&& forall|k: int|
        0 <= k < order.len() ==> (#[trigger] order[k]) < rows.len() && passes(
            rows[order[k] as int],
            filter,
        )
    &&& forall|i: int|
        0 <= i < rows.len() && passes(#[trigger] rows[i], filter) ==> exists|k: int|
            0 <= k < order.len() && #[trigger] order[k] == i
    &&& forall|a: int, b: int|
        0 <= a < b < order.len() ==> listed_before(
            rows,
            sort,
            #[trigger] order[a] as int,
            #[trigger] order[b] as int,
        )
}

/// No text stands before itself, and of two texts at most one stands
/// before the other.
pub proof fn lemma_bytes_asymmetric(a: Seq<u8>, b: Seq<u8>)
    ensures
        !(bytes_before(a, b) && bytes_before(b, a)),
    decreases a.len(),
{
    if a.len() > 0 && b.len() > 0 && a[0] == b[0] {
        lemma_bytes_asymmetric(a.skip(1), b.skip(1));
    }
}

/// Where `a` does not stand before `b` and `b` not before `c`, `a` does
/// not stand before `c`.
pub proof fn lemma_bytes_not_before_chains(a: Seq<u8>, b: Seq<u8>, c: Seq<u8>)
    requires
        !bytes_before(a, b),
        !bytes_before(b, c),
    ensures
        !bytes_before(a, c),
    decreases a.len(),
{
    if a.len() > 0 && b.len() > 0 && c.len() > 0 && a[0] == b[0] && b[0] == c[0] {
        lemma_bytes_not_before_chains(a.skip(1), b.skip(1), c.skip(1));
    }
}

/// The order of rows is asymmetric.
pub proof fn lemma_sorts_asymmetric(a: GameRow, b: GameRow, sort: SortGamesBy)
    ensures
        !(sorts_before(a, b, sort) && sorts_before(b, a, sort)),
{
    lemma_bytes_asymmetric(encode_utf8(a.opening@), encode_utf8(b.opening@));
    lemma_bytes_asymmetric(encode_utf8(a.white@), encode_utf8(b.white@));
    lemma_bytes_asymmetric(encode_utf8(a.black@), encode_utf8(b.black@));
    lemma_bytes_asymmetric(encode_utf8(a.outcome@), encode_utf8(b.outcome@));
    lemma_bytes_asymmetric(encode_utf8(a.event@), encode_utf8(b.event@));
}

/// Where `a` does not sort before `b` and `b` not before `c`, `a` does not
/// sort before `c`.
pub proof fn lemma_sorts_not_before_chains(a: GameRow, b: GameRow, c: GameRow, sort: SortGamesBy)
    requires
        !sorts_before(a, b, sort),
        !sorts_before(b, c, sort),
    ensures
        !sorts_before(a, c, sort),
{
    if sort.is_reversed() {
        match sort.column_of() {
            SortColumn::Date => {},
            SortColumn::Opening => lemma_bytes_not_before_chains(
                encode_utf8(c.opening@),
                encode_utf8(b.opening@),
                encode_utf8(a.opening@),
            ),
            SortColumn::White => lemma_bytes_not_before_chains(
                encode_utf8(c.white@),
                encode_utf8(b.white@),
                encode_utf8(a.white@),
            ),
            SortColumn::Black => lemma_bytes_not_before_chains(
                encode_utf8(c.black@),
                encode_utf8(b.black@),
                encode_utf8(a.black@),
            ),
            SortColumn::Outcome => lemma_bytes_not_before_chains(
                encode_utf8(c.outcome@),
                encode_utf8(b.outcome@),
                encode_utf8(a.outcome@),
            ),
            SortColumn::Event => lemma_bytes_not_before_chains(
                encode_utf8(c.event@),
                encode_utf8(b.event@),
                encode_utf8(a.event@),
            ),
        }
    } else {
        match sort.column_of() {
            SortColumn::Date => {},
            SortColumn::Opening => lemma_bytes_not_before_chains(
                encode_utf8(a.opening@),
                encode_utf8(b.opening@),
                encode_utf8(c.opening@),
            ),
            SortColumn::White => lemma_bytes_not_before_chains(
                encode_utf8(a.white@),
                encode_utf8(b.white@),
                encode_utf8(c.white@),
            ),
            SortColumn::Black => lemma_bytes_not_before_chains(
                encode_utf8(a.black@),
                encode_utf8(b.black@),
                encode_utf8(c.black@),
            ),
            SortColumn::Outcome => lemma_bytes_not_before_chains(
                encode_utf8(a.outcome@),
                encode_utf8(b.outcome@),
                encode_utf8(c.outcome@),
            ),
            SortColumn::Event => lemma_bytes_not_before_chains(
                encode_utf8(a.event@),
                encode_utf8(b.event@),
                encode_utf8(c.event@),
            ),
        }
    }
}

/// Whether one run of bytes stands before another.
pub fn bytes_less(a: &[u8], b: &[u8]) -> (res: bool)
    ensures
        res == bytes_before(a@, b@),
{
    let mut i: usize = 0;
    assert(a@.skip(0) =~= a@);
    assert(b@.skip(0) =~= b@);
    while i < a.len() && i < b.len()
        invariant
            i <= a.len(),
            i <= b.len(),
            bytes_before(a@, b@) == bytes_before(a@.skip(i as int), b@.skip(i as int)),
        decreases a.len() - i,
    {
        let ghost ra = a@.skip(i as int);
        let ghost rb = b@.skip(i as int);
        assert(ra[0] == a[i as int]);
        assert(rb[0] == b[i as int]);
        assert(ra.skip(1) =~= a@.skip(i + 1));
        assert(rb.skip(1) =~= b@.skip(i + 1));
        if a[i] != b[i] {
            return a[i] < b[i];
        }
        i += 1;
    }
    i < b.len()
}

/// Whether one text stands before another.
pub fn text_less(a: &str, b: &str) -> (res: bool)
    ensures
        res == text_before(a@, b@),
{
    bytes_less(a.as_bytes(), b.as_bytes())
}

/// Whether row `a` sorts before row `b`.
pub fn row_less(a: &GameRow, b: &GameRow, sort: SortGamesBy) -> (res: bool)
    ensures
        res == sorts_before(*a, *b, sort),
{
    let (x, y) = if sort.reversed() {
        (b, a)
    } else {
        (a, b)
    };
    match sort.column() {
        SortColumn::Date => x.date < y.date,
        SortColumn::Opening => text_less(x.opening.as_str(), y.opening.as_str()),
        SortColumn::White => text_less(x.white.as_str(), y.white.as_str()),
        SortColumn::Black => text_less(x.black.as_str(), y.black.as_str()),
        SortColumn::Outcome => text_less(x.outcome.as_str(), y.outcome.as_str()),
        SortColumn::Event => text_less(x.event.as_str(), y.event.as_str()),
    }
}

/// Whether a row passes the filter.
pub fn row_passes(row: &GameRow, filter: Option<GameOrigin>) -> (res: bool)
    ensures
        res == passes(*row, filter),
{
    match filter {
        Some(origin) => row.origin == origin,
        None => true,
    }
}

/// Of two rows at most one is listed before the other, and no row before
/// itself.
pub proof fn lemma_listed_before_asymmetric(rows: Seq<GameRow>, sort: SortGamesBy, i: int, j: int)
    ensures
        !(listed_before(rows, sort, i, j) && listed_before(rows, sort, j, i)),
{
    lemma_sorts_asymmetric(rows[i], rows[j], sort);
}

/// Whether every place of `order` is listed before every later one.
spec fn is_chain(rows: Seq<GameRow>, sort: SortGamesBy, order: Seq<usize>) -> bool {
    forall|a: int, b: int|
        0 <= a < b < order.len() ==> listed_before(
            rows,
            sort,
            #[trigger] order[a] as int,
            #[trigger] order[b] as int,
        )
}

/// Whether `a` holds the place `x`.
spec fn holds(a: Seq<usize>, x: usize) -> bool {
    exists|m: int| 0 <= m < a.len() && #[trigger] a[m] == x
}

/// Whether `a` holds every place that `b` holds.
spec fn covers(a: Seq<usize>, b: Seq<usize>) -> bool {
    forall|k: int| 0 <= k < b.len() ==> holds(a, #[trigger] b[k])
}

/// Two chains over the same places begin with the same place.
proof fn lemma_chains_begin_alike(
    rows: Seq<GameRow>,
    sort: SortGamesBy,
    a: Seq<usize>,
    b: Seq<usize>,
)
    requires
        is_chain(rows, sort, a),
        is_chain(rows, sort, b),
        holds(b, a[0]),
        holds(a, b[0]),
        a.len() > 0,
        b.len() > 0,
    ensures
        a[0] == b[0],
{
    let k = choose|k: int| 0 <= k < b.len() && b[k] == a[0];
    let m = choose|m: int| 0 <= m < a.len() && a[m] == b[0];
    lemma_listed_before_asymmetric(rows, sort, a[0] as int, b[0] as int);
    if k > 0 && m > 0 {
        assert(listed_before(rows, sort, b[0] as int, b[k] as int));
        assert(listed_before(rows, sort, a[0] as int, a[m] as int));
    }
}

/// The rest of a chain holds the rest of another chain that begins with the
/// same place and holds nothing else.
proof fn lemma_rest_covers(rows: Seq<GameRow>, sort: SortGamesBy, a: Seq<usize>, b: Seq<usize>)
    requires
        is_chain(rows, sort, b),
        covers(a, b),
        a.len() > 0,
        b.len() > 0,
        a[0] == b[0],
    ensures
        covers(a.skip(1), b.skip(1)),
{
    let a2 = a.skip(1);
    let b2 = b.skip(1);
    assert forall|i: int| 0 <= i < b2.len() implies holds(a2, #[trigger] b2[i]) by {
        assert(holds(a, b[i + 1]));
        let j = choose|j: int| 0 <= j < a.len() && a[j] == b[i + 1];
        lemma_listed_before_asymmetric(rows, sort, b[0] as int, b[i + 1] as int);
        assert(listed_before(rows, sort, b[0] as int, b[i + 1] as int));
        assert(j > 0);
        assert(a2[j - 1] == b2[i]);
    }
}

/// The rest of a chain is a chain.
proof fn lemma_rest_is_chain(rows: Seq<GameRow>, sort: SortGamesBy, a: Seq<usize>)
    requires
        is_chain(rows, sort, a),
        a.len() > 0,
    ensures
        is_chain(rows, sort, a.skip(1)),
{
    let a2 = a.skip(1);
    assert forall|x: int, y: int| 0 <= x < y < a2.len() implies listed_before(
        rows,
        sort,
        #[trigger] a2[x] as int,
        #[trigger] a2[y] as int,
    ) by {
        assert(listed_before(rows, sort, a[x + 1] as int, a[y + 1] as int));
    }
}

/// Two chains over the same places are the same chain.
proof fn lemma_chains_agree(rows: Seq<GameRow>, sort: SortGamesBy, a: Seq<usize>, b: Seq<usize>)
    requires
        is_chain(rows, sort, a),
        is_chain(rows, sort, b),
        covers(a, b),
        covers(b, a),
    ensures
        a == b,
    decreases a.len(),
{
    if a.len() == 0 {
        if b.len() > 0 {
            assert(holds(a, b[0]));
        }
        assert(a =~= b);
    } else {
        assert(holds(b, a[0]));
        assert(holds(a, b[0]));
        lemma_chains_begin_alike(rows, sort, a, b);
        lemma_rest_covers(rows, sort, a, b);
        lemma_rest_covers(rows, sort, b, a);
        lemma_rest_is_chain(rows, sort, a);
        lemma_rest_is_chain(rows, sort, b);
        lemma_chains_agree(rows, sort, a.skip(1), b.skip(1));
        assert(a =~= seq![a[0]] + a.skip(1));
        assert(b =~= seq![b[0]] + b.skip(1));
    }
}

/// Every place of one listing is a place of the other.
proof fn lemma_listings_cover(
    rows: Seq<GameRow>,
    filter: Option<GameOrigin>,
    sort: SortGamesBy,
    a: Seq<usize>,
    b: Seq<usize>,
)
    requires
        is_listing(rows, filter, sort, a),
        is_listing(rows, filter, sort, b),
    ensures
        covers(a, b),
{
    assert forall|k: int| 0 <= k < b.len() implies holds(a, #[trigger] b[k]) by {
        let i = b[k] as int;
        assert(passes(rows[i], filter));
        let m = choose|m: int| 0 <= m < a.len() && a[m] == i;
        assert(a[m] == b[k]);
    }
}

/// There is one listing only: rows, filter and order fix which places are
/// listed and where.
pub proof fn lemma_listing_is_unique(
    rows: Seq<GameRow>,
    filter: Option<GameOrigin>,
    sort: SortGamesBy,
    a: Seq<usize>,
    b: Seq<usize>,
)
    requires
        is_listing(rows, filter, sort, a),
        is_listing(rows, filter, sort, b),
    ensures
        a == b,
{
    lemma_listings_cover(rows, filter, sort, a, b);
    lemma_listings_cover(rows, filter, sort, b, a);
    lemma_chains_agree(rows, sort, a, b);
}

/// Whether `order` lists the rows before place `upto` as [`is_listing`]
/// asks of all rows.
spec fn is_listing_upto(
    rows: Seq<GameRow>,
    filter: Option<GameOrigin>,
    sort: SortGamesBy,
    order: Seq<usize>,
    upto: int,
) -> bool {
    &&& forall|k: int|
        0 <= k < order.len() ==> (#[trigger] order[k]) < upto && passes(
            rows[order[k] as int],
            filter,
        )
    &&& forall|i: int|
        0 <= i < upto && passes(#[trigger] rows[i], filter) ==> exists|k: int|
            0 <= k < order.len() && #[trigger] order[k] == i
    &&& forall|a: int, b: int|
        0 <= a < b < order.len() ==> listed_before(
            rows,
            sort,
            #[trigger] order[a] as int,
            #[trigger] order[b] as int,
        )
}

/// Putting the next row at the place where every row before it does not
/// sort after it and every row from there on does keeps the listing.
proof fn lemma_insert_keeps_listing(
    rows: Seq<GameRow>,
    filter: Option<GameOrigin>,
    sort: SortGamesBy,
    order: Seq<usize>,
    i: usize,
    p: int,
)
    requires
        i < rows.len(),
        passes(rows[i as int], filter),
        is_listing_upto(rows, filter, sort, order, i as int),
        0 <= p <= order.len(),
        forall|k: int| p <= k < order.len() ==> sorts_before(rows[i as int], rows[#[trigger] order[k] as int], sort),
        p > 0 ==> !sorts_before(rows[i as int], rows[order[p - 1] as int], sort),
    ensures
        is_listing_upto(rows, filter, sort, order.insert(p, i), i + 1),
{
    let next = order.insert(p, i);
    order.insert_ensures(p, i);
    assert forall|k: int| 0 <= k < p implies !sorts_before(
        rows[i as int],
        rows[#[trigger] order[k] as int],
        sort,
    ) by {
        if k < p - 1 {
            let a = order[k] as int;
            let c = order[p - 1] as int;
            assert(listed_before(rows, sort, a, c));
            lemma_sorts_asymmetric(rows[a], rows[c], sort);
            lemma_sorts_not_before_chains(rows[i as int], rows[c], rows[a], sort);
        }
    }
    assert forall|a: int, b: int| 0 <= a < b < next.len() implies listed_before(
        rows,
        sort,
        #[trigger] next[a] as int,
        #[trigger] next[b] as int,
    ) by {
        if b < p {
            assert(next[a] == order[a] && next[b] == order[b]);
        } else if b == p {
            assert(next[a] == order[a]);
            assert(order[a] < i);
        } else if a < p {
            assert(next[a] == order[a] && next[b] == order[b - 1]);
        } else if a == p {
            assert(next[b] == order[b - 1]);
        } else {
            assert(next[a] == order[a - 1] && next[b] == order[b - 1]);
        }
    }
    assert forall|k: int| 0 <= k < next.len() implies (#[trigger] next[k]) < i + 1 && passes(
        rows[next[k] as int],
        filter,
    ) by {
        if k < p {
            assert(next[k] == order[k]);
        } else if k > p {
            assert(next[k] == order[k - 1]);
        }
    }
    assert forall|j: int| 0 <= j < i + 1 && passes(#[trigger] rows[j], filter) implies exists|
        k: int,
    |
        0 <= k < next.len() && #[trigger] next[k] == j by {
        if j == i {
            assert(next[p] == j);
        } else {
            let k = choose|k: int| 0 <= k < order.len() && #[trigger] order[k] == j;
            if k < p {
                assert(next[k] == j);
            } else {
                assert(next[k + 1] == j);
            }
        }
    }
}

/// Lists the rows that pass the filter in the order asked for. Rows that
/// sort alike stay in the order they came in.
pub fn listing(rows: &Vec<GameRow>, filter: Option<GameOrigin>, sort: SortGamesBy) -> (order: Vec<
    usize,
>)
    ensures
        is_listing(rows@, filter, sort, order@),
{
    let mut order: Vec<usize> = Vec::new();
    let mut i: usize = 0;
    while i < rows.len()
        invariant
            i <= rows.len(),
            is_listing_upto(rows@, filter, sort, order@, i as int),
        decreases rows.len() - i,
    {
        if row_passes(&rows[i], filter) {
            let mut p: usize = order.len();
            while p > 0 && row_less(&rows[i], &rows[order[p - 1]], sort)
                invariant
                    i < rows.len(),
                    p <= order.len(),
                    forall|k: int| 0 <= k < order.len() ==> (#[trigger] order[k]) < i,
                    forall|k: int|
                        p <= k < order.len() ==> sorts_before(
                            rows[i as int],
                            rows[#[trigger] order[k] as int],
                            sort,
                        ),
                decreases p,
            {
                p -= 1;
            }
            proof {
                lemma_insert_keeps_listing(rows@, filter, sort, order@, i, p as int);
            }
            order.insert(p, i);
        }
        i += 1;
    }
    order
}

/// The part of a listing that a page shows: nothing on a page that begins
/// at or behind the number of all games, filtered or not; else the page's
/// games, as far as the listing has them.
pub open spec fn page_of(order: Seq<usize>, games: int, page: int) -> Seq<usize> {
    let start = page * PAGE_SIZE;
    if start >= games {
        Seq::empty()
    } else if start >= order.len() {
        Seq::empty()
    } else if start + PAGE_SIZE >= order.len() {
        order.subrange(start, order.len() as int)
    } else {
        order.subrange(start, start + PAGE_SIZE)
    }
}

/// Cuts a page out of a listing.
pub fn cut_page(order: &Vec<usize>, games: usize, page: usize) -> (shown: Vec<usize>)
    ensures
        shown@ == page_of(order@, games as int, page as int),
{
    let mut shown: Vec<usize> = Vec::new();
    if page >= total_pages(games) {
        return shown;
    }
    let start = page * PAGE_SIZE;
    if start >= order.len() {
        return shown;
    }
    let end = if order.len() - start <= PAGE_SIZE {
        order.len()
    } else {
        start + PAGE_SIZE
    };
    let mut k: usize = start;
    while k < end
        invariant
            start <= k <= end <= order.len(),
            shown@ == order@.subrange(start as int, k as int),
        decreases end - k,
    {
        shown.push(order[k]);
        assert(shown@ =~= order@.subrange(start as int, k + 1));
        k += 1;
    }
    shown
}

/// The places of the games that a page of the list shows, in the order
/// shown: the games that pass the filter are put in the order asked for,
/// and the page is cut out of that.
pub fn visible_games(
    rows: &Vec<GameRow>,
    filter: Option<GameOrigin>,
    sort: SortGamesBy,
    page: usize,
) -> (shown: Vec<usize>)
    ensures
        exists|order: Seq<usize>|
            is_listing(rows@, filter, sort, order) && shown@ == page_of(
                order,
                rows.len() as int,
                page as int,
            ),
        forall|k: int| 0 <= k < shown.len() ==> (#[trigger] shown[k]) < rows.len(),
{
    let order = listing(rows, filter, sort);
    cut_page(&order, rows.len(), page)
}

} // verus!
