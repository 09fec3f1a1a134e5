//! The watch history as a document: years as headings of the second level,
//! months as headings of the third, and below each month a list of films, one
//! per item, written as title, hyphen, rating.

use crate::film::{MonthOfYear, Rating, WatchedFilm, WatchedFilmView};
use crate::text::{decimal_i16, owned, parse_i16, split_at_first, split_once, trim, trimmed};
use comrak::arena_tree::NodeEdge;
use comrak::nodes::NodeValue;
use vstd::prelude::*;

verus! {

/// What a node of a parsed document is, as far as the history reads it.
#[derive(Debug, PartialEq, Eq)]
pub enum NodeKind {
    /// A heading of the given level.
    Heading(u8),
    List,
    /// An item of a list.
    Item,
    Paragraph,
    /// Plain text.
    Text(String),
    /// Any other node.
    Other,
}

/// The mathematical content of a [`NodeKind`].
pub ghost enum NodeKindView {
    Heading(u8),
    List,
    Item,
    Paragraph,
    Text(Seq<char>),
    Other,
}

impl View for NodeKind {
    type V = NodeKindView;

    open spec fn view(&self) -> NodeKindView {
        match self {
            NodeKind::Heading(level) => NodeKindView::Heading(*level),
            NodeKind::List => NodeKindView::List,
            NodeKind::Item => NodeKindView::Item,
            NodeKind::Paragraph => NodeKindView::Paragraph,
            NodeKind::Text(text) => NodeKindView::Text(text@),
            NodeKind::Other => NodeKindView::Other,
        }
    }
}

/// One step of the walk through a parsed document in tree order: into a node,
/// before its children, or out of a node, behind them.
#[derive(Debug, PartialEq, Eq)]
pub enum Edge {
    Start(NodeKind),
    End,
}

/// The mathematical content of an [`Edge`].
pub ghost enum EdgeView {
    Start(NodeKindView),
    End,
}

impl View for Edge {
    type V = EdgeView;

    open spec fn view(&self) -> EdgeView {
        match self {
            Edge::Start(kind) => EdgeView::Start(kind@),
            Edge::End => EdgeView::End,
        }
    }
}

impl DeepView for Edge {
    type V = EdgeView;

    open spec fn deep_view(&self) -> EdgeView {
        self@
    }
}

/// The walk through the document that `comrak::parse_document` makes of
/// `markdown`: the edges that `Node::traverse` yields from the root, each node
/// by its kind.
pub uninterp spec fn document_edges(markdown: Seq<char>) -> Seq<EdgeView>;

/// Calls `comrak::parse_document` with the default options and collects the
/// edges that `Node::traverse` yields from the root, with the kind of each
/// node that is entered. The result is given the name [`document_edges`];
/// nothing is claimed of what the parser makes of a text.
#[verifier::external_body]
fn parse_document(markdown: &str) -> (edges: Vec<Edge>)
    ensures
        edges.deep_view() == document_edges(markdown@),
{
    let arena = comrak::Arena::new();
    let root = comrak::parse_document(&arena, markdown, &comrak::Options::default());
    root.traverse().map(|edge| match edge {
        NodeEdge::Start(node) => Edge::Start(match &node.data.borrow().value {
            NodeValue::Heading(heading) => NodeKind::Heading(heading.level),
            NodeValue::List(_) => NodeKind::List,
            NodeValue::Item(_) => NodeKind::Item,
            NodeValue::Paragraph => NodeKind::Paragraph,
            NodeValue::Text(text) => NodeKind::Text(text.to_string()),
            _ => NodeKind::Other,
        }),
        NodeEdge::End(_) => Edge::End,
    }).collect()
}

/// A block at the top level of a document, as far as the history reads it.
#[derive(Debug, PartialEq, Eq)]
pub enum Block {
    /// A heading. `text` is the text that its first child holds, where that
    /// child is plain text.
    Heading { level: u8, text: Option<String> },
    /// A list. Each item is the text that stands first in its first
    /// paragraph, where the item is shaped so.
    List { items: Vec<Option<String>> },
    /// Any other block.
    Other,
}

/// The mathematical content of a [`Block`].
pub ghost enum BlockView {
    Heading { level: u8, text: Option<Seq<char>> },
    List { items: Seq<Option<Seq<char>>> },
    Other,
}

impl View for Block {
    type V = BlockView;

    open spec fn view(&self) -> BlockView {
        match self {
            Block::Heading { level, text } => BlockView::Heading {
                level: *level,
                text: text.deep_view(),
            },
            Block::List { items } => BlockView::List { items: items.deep_view() },
            Block::Other => BlockView::Other,
        }
    }
}

impl DeepView for Block {
    type V = BlockView;

    open spec fn deep_view(&self) -> BlockView {
        self@
    }
}

/// The plain text that the walk enters at position `i`.
pub open spec fn text_at(edges: Seq<EdgeView>, i: int) -> Option<Seq<char>> {
    if 0 <= i < edges.len() {
        match edges[i] {
            EdgeView::Start(NodeKindView::Text(text)) => Some(text),
            _ => None,
        }
    } else {
        None
    }
}

/// The text of the list item that the walk enters at position `i`: the node
/// is an item, its first child a paragraph, and the first child of that plain
/// text.
pub open spec fn item_text_at(edges: Seq<EdgeView>, i: int) -> Option<Seq<char>> {
    if 0 <= i && i + 1 < edges.len() && edges[i] == EdgeView::Start(NodeKindView::Item) && edges[i
        + 1] == EdgeView::Start(NodeKindView::Paragraph) {
        text_at(edges, i + 2)
    } else {
        None
    }
}

/// What a part of the walk has shown of the document.
pub ghost struct Outline {
    /// The number of nodes entered and not yet left.
    pub depth: nat,
    /// The top-level blocks that are complete.
    pub blocks: Seq<BlockView>,
    /// The items of the top-level list that the walk is in, if it is in one.
    pub items: Option<Seq<Option<Seq<char>>>>,
}

/// The outline after the edge at position `i`. The root is entered at depth
/// zero, the top-level blocks at depth one, the items of a top-level list at
/// depth two. A heading is complete when it is entered, with the text of its
/// first child; a list is complete when it is left.
pub open spec fn outline_step(edges: Seq<EdgeView>, i: int, before: Outline) -> Outline {
    match edges[i] {
        EdgeView::Start(kind) => {
            let depth = before.depth + 1;
            if before.depth == 1 {
                match kind {
                    NodeKindView::Heading(level) => Outline {
                        depth,
                        blocks: before.blocks.push(
                            BlockView::Heading { level, text: text_at(edges, i + 1) },
                        ),
                        items: None,
                    },
                    NodeKindView::List => Outline {
                        depth,
                        blocks: before.blocks,
                        items: Some(Seq::empty()),
                    },
                    _ => Outline {
                        depth,
                        blocks: before.blocks.push(BlockView::Other),
                        items: None,
                    },
                }
            } else if before.depth == 2 && before.items is Some {
                Outline {
                    depth,
                    blocks: before.blocks,
                    items: Some(before.items.unwrap().push(item_text_at(edges, i))),
                }
            } else {
                Outline { depth, ..before }
            }
        },
        EdgeView::End => {
            let depth = if before.depth > 0 {
                (before.depth - 1) as nat
            } else {
                0
            };
            if before.depth == 2 && before.items is Some {
                Outline {
                    depth,
                    blocks: before.blocks.push(
                        BlockView::List { items: before.items.unwrap() },
                    ),
                    items: None,
                }
            } else {
                Outline { depth, ..before }
            }
        },
    }
}

/// The outline after the first `n` edges of the walk.
pub open spec fn outline(edges: Seq<EdgeView>, n: nat) -> Outline
    decreases n,
{
    if n == 0 {
        Outline { depth: 0, blocks: Seq::empty(), items: None }
    } else {
        outline_step(edges, n - 1, outline(edges, (n - 1) as nat))
    }
}

/// The top-level blocks of the document that the walk `edges` goes through.
pub open spec fn blocks_of(edges: Seq<EdgeView>) -> Seq<BlockView> {
    outline(edges, edges.len()).blocks
}

/// The plain text that the walk enters at position `i`.
fn text_starting_at(edges: &Vec<Edge>, i: usize) -> (r: Option<String>)
    ensures
        r.deep_view() == text_at(edges.deep_view(), i as int),
{
    if i < edges.len() {
        match &edges[i] {
            Edge::Start(NodeKind::Text(text)) => Some(text.clone()),
            _ => None,
        }
    } else {
        None
    }
}

/// The text of the list item that the walk enters at position `i`.
fn item_text_starting_at(edges: &Vec<Edge>, i: usize) -> (r: Option<String>)
    requires
        i < edges.len(),
    ensures
        r.deep_view() == item_text_at(edges.deep_view(), i as int),
{
    if i + 1 < edges.len() {
        let item = match &edges[i] {
            Edge::Start(NodeKind::Item) => true,
            _ => false,
        };
        let paragraph = match &edges[i + 1] {
            Edge::Start(NodeKind::Paragraph) => true,
            _ => false,
        };
        if item && paragraph {
            text_starting_at(edges, i + 2)
        } else {
            None
        }
    } else {
        None
    }
}

/// Reads the top-level blocks of a document off the walk through it.
pub fn blocks_from_edges(edges: &Vec<Edge>) -> (blocks: Vec<Block>)
    ensures
        blocks.deep_view() == blocks_of(edges.deep_view()),
{
    let ghost all = edges.deep_view();
    let mut depth: usize = 0;
    let mut blocks: Vec<Block> = Vec::new();
    let mut items: Option<Vec<Option<String>>> = None;
    assert(blocks.deep_view() =~= Seq::<BlockView>::empty());
    let mut i: usize = 0;
    while i < edges.len()
        invariant
            i <= edges.len(),
            depth <= i,
            all == edges.deep_view(),
            outline(all, i as nat) == (Outline {
                depth: depth as nat,
                blocks: blocks.deep_view(),
                items: items.deep_view(),
            }),
        decreases edges.len() - i,
    {
        let ghost done = blocks.deep_view();
        match &edges[i] {
            Edge::Start(kind) => {
                if depth == 1 {
                    match kind {
                        NodeKind::Heading(level) => {
                            let text = text_starting_at(edges, i + 1);
                            blocks.push(Block::Heading { level: *level, text });
                            assert(blocks.deep_view() =~= done.push(
                                BlockView::Heading {
                                    level: *level,
                                    text: text_at(all, i + 1),
                                },
                            ));
                            items = None;
                        },
                        NodeKind::List => {
                            let fresh: Vec<Option<String>> = Vec::new();
                            assert(fresh.deep_view() =~= Seq::<Option<Seq<char>>>::empty());
                            items = Some(fresh);
                        },
                        _ => {
                            blocks.push(Block::Other);
                            assert(blocks.deep_view() =~= done.push(BlockView::Other));
                            items = None;
                        },
                    }
                } else if depth == 2 && items.is_some() {
                    let text = item_text_starting_at(edges, i);
                    let mut list = items.unwrap();
                    let ghost listed = list.deep_view();
                    list.push(text);
                    assert(list.deep_view() =~= listed.push(item_text_at(all, i as int)));
                    items = Some(list);
                }
                depth += 1;
            },
            Edge::End => {
                if depth == 2 && items.is_some() {
                    let list = items.unwrap();
                    let ghost listed = list.deep_view();
                    blocks.push(Block::List { items: list });
                    assert(blocks.deep_view() =~= done.push(BlockView::List { items: listed }));
                    items = None;
                }
                if depth > 0 {
                    depth -= 1;
                }
            },
        }
        i += 1;
    }
    blocks
}

/// What is known after a part of the document has been read: the year and the
/// month that the next list belongs to, and the films read so far.
pub ghost struct Reading {
    pub year: Option<int>,
    pub month: Option<int>,
    pub films: Seq<WatchedFilmView>,
}

/// The film that the list item `text` records under `year` and `month`: the
/// title stands before the first hyphen, the rating behind it.
pub open spec fn film_of(text: Seq<char>, year: int, month: int) -> Option<WatchedFilmView> {
    match split_at_first(text, '-') {
        Some((title, rating)) => match Rating::parsed(rating) {
            Ok(rating) => Some(
                WatchedFilmView {
                    title: trimmed(title),
                    rating,
                    year_watched: year,
                    month_of_year_watched: month,
                },
            ),
            Err(_) => None,
        },
        None => None,
    }
}

/// The films that the items of one list record, in the order of the items.
/// Items that record no film are passed over.
pub open spec fn films_of_items(items: Seq<Option<Seq<char>>>, year: int, month: int) -> Seq<
    WatchedFilmView,
>
    decreases items.len(),
{
    if items.len() == 0 {
        Seq::empty()
    } else {
        let before = films_of_items(items.drop_last(), year, month);
        match items.last() {
            Some(text) => match film_of(text, year, month) {
                Some(film) => before.push(film),
                None => before,
            },
            None => before,
        }
    }
}

/// The reading after `block`. A heading of the second level that is a year
/// opens that year; one of the third level that names a month opens that
/// month of the open year; a list adds its films to the open month. Anything
/// else changes nothing.
pub open spec fn read_block(reading: Reading, block: BlockView) -> Reading {
    match block {
        BlockView::Heading { level, text: Some(text) } => {
            if level == 2 {
                match decimal_i16(trimmed(text)) {
                    Some(year) => Reading { year: Some(year), month: None, films: reading.films },
                    None => reading,
                }
            } else if level == 3 && reading.year is Some {
                match MonthOfYear::parsed(trimmed(text)) {
                    Ok(month) => Reading { month: Some(month), ..reading },
                    Err(_) => reading,
                }
            } else {
                reading
            }
        },
        BlockView::List { items } => match (reading.year, reading.month) {
            (Some(year), Some(month)) => Reading {
                films: reading.films + films_of_items(items, year, month),
                ..reading
            },
            _ => reading,
        },
        _ => reading,
    }
}

/// The reading after all of `blocks`.
pub open spec fn read_blocks(blocks: Seq<BlockView>) -> Reading
    decreases blocks.len(),
{
    if blocks.len() == 0 {
        Reading { year: None, month: None, films: Seq::empty() }
    } else {
        read_block(read_blocks(blocks.drop_last()), blocks.last())
    }
}

/// Reads the film that a list item records.
pub fn film_from_item(text: &str, year: i16, month: MonthOfYear) -> (r: Option<WatchedFilm>)
    ensures
        r.deep_view() == film_of(text@, year as int, month@),
{
    match split_once(text, '-') {
        Some((title, rating)) => match Rating::try_from(rating) {
            Ok(rating) => Some(
                WatchedFilm {
                    title: owned(trim(title)),
                    rating,
                    year_watched: year,
                    month_of_year_watched: month,
                },
            ),
            Err(_) => None,
        },
        None => None,
    }
}

/// Reads the films of a document from its top-level blocks: every film with
/// the year and the month it stands under, in the order of the document.
pub fn get_films_from_blocks(blocks: &Vec<Block>) -> (films: Vec<WatchedFilm>)
    ensures
        films.deep_view() == read_blocks(blocks.deep_view()).films,
{
    let ghost all = blocks.deep_view();
    let mut year: Option<i16> = None;
    let mut month: Option<MonthOfYear> = None;
    let mut films: Vec<WatchedFilm> = Vec::new();
    assert(films.deep_view() =~= Seq::<WatchedFilmView>::empty());
    let mut i: usize = 0;
    while i < blocks.len()
        invariant
            i <= blocks.len(),
            all == blocks.deep_view(),
            read_blocks(all.take(i as int)) == (Reading {
                year: match year {
                    Some(y) => Some(y as int),
                    None => None,
                },
                month: match month {
                    Some(m) => Some(m@),
                    None => None,
                },
                films: films.deep_view(),
            }),
        decreases blocks.len() - i,
    {
        proof {
            assert(all.take(i + 1).drop_last() =~= all.take(i as int));
        }
        match &blocks[i] {
            Block::Heading { level, text: Some(text) } => {
                if *level == 2 {
                    match parse_i16(trim(text.as_str())) {
                        Some(parsed) => {
                            year = Some(parsed);
                            month = None;
                        },
                        None => {},
                    }
                } else if *level == 3 && year.is_some() {
                    match MonthOfYear::try_from(trim(text.as_str())) {
                        Ok(parsed) => {
                            month = Some(parsed);
                        },
                        Err(_) => {},
                    }
                }
            },
            Block::List { items } => {
                match (year, month) {
                    (Some(y), Some(m)) => {
                        add_films_of_items(&mut films, items, y, m);
                    },
                    _ => {},
                }
            },
            _ => {},
        }
        i += 1;
    }
    assert(all.take(i as int) =~= all);
    films
}

/// Appends the films that the items of one list record to `films`.
fn add_films_of_items(
    films: &mut Vec<WatchedFilm>,
    items: &Vec<Option<String>>,
    year: i16,
    month: MonthOfYear,
)
    ensures
        final(films).deep_view() == old(films).deep_view() + films_of_items(
            items.deep_view(),
            year as int,
            month@,
        ),
{
    let ghost all = items.deep_view();
    let ghost before = films.deep_view();
    let mut j: usize = 0;
    while j < items.len()
        invariant
            j <= items.len(),
            all == items.deep_view(),
            films.deep_view() == before + films_of_items(all.take(j as int), year as int, month@),
        decreases items.len() - j,
    {
        proof {
            assert(all.take(j + 1).drop_last() =~= all.take(j as int));
        }
        let ghost so_far = films.deep_view();
        match &items[j] {
            Some(text) => match film_from_item(text.as_str(), year, month) {
                Some(film) => {
                    films.push(film);
                    assert(films.deep_view() =~= so_far.push(film@));
                },
                None => {},
            },
            None => {},
        }
        j += 1;
    }
    assert(all.take(j as int) =~= all);
}

/// Reads the films of a watch history written in Markdown: every film with
/// the year and the month it stands under, in the order of the document.
pub fn parse_films_from_markdown(markdown: &str) -> (films: Vec<WatchedFilm>)
    ensures
        films.deep_view() == read_blocks(blocks_of(document_edges(markdown@))).films,
{
    let edges = parse_document(markdown);
    let blocks = blocks_from_edges(&edges);
    get_films_from_blocks(&blocks)
}

/// `a` was watched in an earlier month than `b`.
pub open spec fn watched_before(a: WatchedFilmView, b: WatchedFilmView) -> bool {
    a.year_watched < b.year_watched || (a.year_watched == b.year_watched
        && a.month_of_year_watched < b.month_of_year_watched)
}

/// The film watched most recently: of the films of the latest month, the one
/// that stands last.
pub open spec fn latest(films: Seq<WatchedFilmView>) -> Option<WatchedFilmView>
    decreases films.len(),
{
    if films.len() == 0 {
        None
    } else {
        match latest(films.drop_last()) {
            Some(earlier) if watched_before(films.last(), earlier) => Some(earlier),
            _ => Some(films.last()),
        }
    }
}

/// Gives the place of the latest film: no film was watched in a later month,
/// and the films that stand behind it were watched in an earlier month.
pub proof fn lemma_latest_is_last_of_latest_month(films: Seq<WatchedFilmView>) -> (i: int)
    requires
        films.len() > 0,
    ensures
        0 <= i < films.len(),
        latest(films) == Some(films[i]),
        forall|j: int| 0 <= j < films.len() ==> !watched_before(films[i], #[trigger] films[j]),
        forall|j: int| i < j < films.len() ==> watched_before(#[trigger] films[j], films[i]),
    decreases films.len(),
{
    let last = films.len() - 1;
    let front = films.drop_last();
    if films.len() == 1 {
        last
    } else {
        let i = lemma_latest_is_last_of_latest_month(front);
        if watched_before(films[last], films[i]) {
            assert forall|j: int| i < j < films.len() implies watched_before(
                #[trigger] films[j],
                films[i],
            ) by {
                if j < last {
                    assert(films[j] == front[j]);
                }
            }
            assert forall|j: int| 0 <= j < films.len() implies !watched_before(
                films[i],
                #[trigger] films[j],
            ) by {
                if j < last {
                    assert(films[j] == front[j]);
                }
            }
            i
        } else {
            assert forall|j: int| 0 <= j < films.len() implies !watched_before(
                films[last],
                #[trigger] films[j],
            ) by {
                if j < last {
                    assert(!watched_before(front[i], front[j]));
                }
            }
            last
        }
    }
}

/// The headings that a new entry needs in front of it.
#[derive(Debug, PartialEq, Eq)]
pub struct NewHeadings {
    /// The year to open, unless the latest film was watched in it.
    pub year: Option<i16>,
    /// The month to open, unless the latest film was watched in a month of
    /// that number.
    pub month: Option<MonthOfYear>,
}

/// The mathematical content of [`NewHeadings`].
pub ghost struct NewHeadingsView {
    pub year: Option<int>,
    pub month: Option<int>,
}

impl View for NewHeadings {
    type V = NewHeadingsView;

    open spec fn view(&self) -> NewHeadingsView {
        NewHeadingsView {
            year: match self.year {
                Some(year) => Some(year as int),
                None => None,
            },
            month: match self.month {
                Some(month) => Some(month@),
                None => None,
            },
        }
    }
}

/// The headings that an entry made in month `month` of `year` needs, given
/// the films the document holds: the year unless the latest film is of that
/// year, the month unless the latest film is of a month of that number.
pub open spec fn headings_needed(
    films: Seq<WatchedFilmView>,
    year: int,
    month: int,
) -> NewHeadingsView {
    NewHeadingsView {
        year: match latest(films) {
            Some(film) if film.year_watched == year => None,
            _ => Some(year),
        },
        month: match latest(films) {
            Some(film) if film.month_of_year_watched == month => None,
            _ => Some(month),
        },
    }
}

/// Finds the film watched most recently.
pub fn latest_film(films: &Vec<WatchedFilm>) -> (r: Option<usize>)
    ensures
        match r {
            Some(i) => i < films.len() && latest(films.deep_view()) == Some(films[i as int]@),
            None => latest(films.deep_view()) is None,
        },
{
    let ghost all = films.deep_view();
    if films.len() == 0 {
        return None;
    }
    let mut best: usize = 0;
    let mut i: usize = 1;
    proof {
        reveal_with_fuel(latest, 2);
    }
    while i < films.len()
        invariant
            1 <= i <= films.len(),
            best < i,
            all == films.deep_view(),
            latest(all.take(i as int)) == Some(all[best as int]),
        decreases films.len() - i,
    {
        proof {
            assert(all.take(i + 1).drop_last() =~= all.take(i as int));
        }
        let candidate = &films[i];
        let current = &films[best];
        let earlier = candidate.year_watched < current.year_watched || (candidate.year_watched
            == current.year_watched && candidate.month_of_year_watched.number()
            < current.month_of_year_watched.number());
        if !earlier {
            best = i;
        }
        i += 1;
    }
    assert(all.take(i as int) =~= all);
    Some(best)
}

/// Decides which headings an entry made in month `month` of `year` needs in
/// front of it.
pub fn headings_for_entry(films: &Vec<WatchedFilm>, year: i16, month: MonthOfYear) -> (r:
    NewHeadings)
    ensures
        r@ == headings_needed(films.deep_view(), year as int, month@),
{
    match latest_film(films) {
        Some(i) => {
            let film = &films[i];
            NewHeadings {
                year: if film.year_watched == year {
                    None
                } else {
                    Some(year)
                },
                month: if film.month_of_year_watched.number() == month.number() {
                    None
                } else {
                    Some(month)
                },
            }
        },
        None => NewHeadings { year: Some(year), month: Some(month) },
    }
}

/// The text of the list item that records `film`: title, hyphen, rating.
pub fn film_line(film: &WatchedFilm) -> (r: String)
    ensures
        r@ == film@.title + " - "@ + film@.rating.name(),
{
    let mut line = film.title.clone();
    line.append(" - ");
    let rating = film.rating.to_string();
    line.append(rating.as_str());
    line
}

} // verus!
