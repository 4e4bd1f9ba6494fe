//! What a Douban subject page, or its page of short comments, says: read out
//! of the HTML by CSS selectors.

use vstd::prelude::*;
use crate::douban::opt_text;
use crate::numtext::parse_i32_spec;
use crate::subject::{
    celebrity_from_link, clean_summary_text, clean_year_text, comment_author, comment_id, comment_time,
    comment_total, comment_total_spec, count_from_text, is_author_of, link_id, summary_of_text,
    text_or_empty, title_from_page_title, title_of_page_title, year_of_text, DoubanAuthor,
    DoubanCelebrity,
};
use crate::text::{first_capture, regex_group1, trim, trim_seq};
use crate::video::string_views;

verus! {

/// Optional texts as sequences.
pub open spec fn opt_views(v: Seq<Option<String>>) -> Seq<Option<Seq<char>>> {
    v.map_values(|o: Option<String>| opt_text(o))
}

/// What the scraper crate finds in an HTML document for a CSS selector: the
/// text of each matching element (its descendant text nodes joined), in
/// document order; nothing when the selector does not parse.
pub uninterp spec fn css_texts(html: Seq<char>, css: Seq<char>) -> Seq<Seq<char>>;

/// Calls `scraper::Html::parse_document`, `scraper::Selector::parse` and
/// `Html::select`, and collects `ElementRef::text` of each match. The
/// contract names the result.
#[verifier::external_body]
fn select_texts(html: &str, css: &str) -> (r: Vec<String>)
    ensures
        string_views(r@) == css_texts(html@, css@),
{
    let doc = scraper::Html::parse_document(html);
    match scraper::Selector::parse(css) {
        Ok(sel) => doc.select(&sel).map(|e| e.text().collect::<String>()).collect(),
        Err(_) => Vec::new(),
    }
}

/// What the scraper crate finds in an HTML document for a CSS selector: the
/// value of the attribute `attr` of each matching element, in document
/// order; nothing when the selector does not parse.
pub uninterp spec fn css_attrs(html: Seq<char>, css: Seq<char>, attr: Seq<char>) -> Seq<Option<Seq<char>>>;

/// Calls `scraper::Html::parse_document`, `scraper::Selector::parse` and
/// `Html::select`, and reads `Element::attr` of each match. The contract
/// names the result.
#[verifier::external_body]
fn select_attrs(html: &str, css: &str, attr: &str) -> (r: Vec<Option<String>>)
    ensures
        opt_views(r@) == css_attrs(html@, css@, attr@),
{
    let doc = scraper::Html::parse_document(html);
    match scraper::Selector::parse(css) {
        Ok(sel) => doc.select(&sel).map(|e| e.value().attr(attr).map(|v| v.to_string())).collect(),
        Err(_) => Vec::new(),
    }
}

/// What the scraper crate finds in an HTML document within each element
/// that `scope` matches, in document order: the text of each of its
/// descendants that `css` matches; nothing when a selector does not parse.
pub uninterp spec fn css_scoped_texts(html: Seq<char>, scope: Seq<char>, css: Seq<char>) -> Seq<
    Seq<Seq<char>>,
>;

/// Calls `scraper::Html::parse_document`, `scraper::Selector::parse`,
/// `Html::select` and `ElementRef::select`, and collects `ElementRef::text`
/// of each inner match. The contract names the result.
#[verifier::external_body]
fn select_scoped_texts(html: &str, scope: &str, css: &str) -> (r: Vec<Vec<String>>)
    ensures
        r@.map_values(|v: Vec<String>| string_views(v@)) == css_scoped_texts(html@, scope@, css@),
{
    let doc = scraper::Html::parse_document(html);
    match (scraper::Selector::parse(scope), scraper::Selector::parse(css)) {
        (Ok(outer), Ok(inner)) => doc.select(&outer).map(
            |e| e.select(&inner).map(|m| m.text().collect::<String>()).collect(),
        ).collect(),
        _ => Vec::new(),
    }
}

/// What the scraper crate finds in an HTML document within each element
/// that `scope` matches, in document order: the attribute `attr` of each of
/// its descendants that `css` matches; nothing when a selector does not
/// parse.
pub uninterp spec fn css_scoped_attrs(html: Seq<char>, scope: Seq<char>, css: Seq<char>, attr: Seq<char>) -> Seq<
    Seq<Option<Seq<char>>>,
>;

/// Calls `scraper::Html::parse_document`, `scraper::Selector::parse`,
/// `Html::select` and `ElementRef::select`, and reads `Element::attr` of
/// each inner match. The contract names the result.
#[verifier::external_body]
fn select_scoped_attrs(html: &str, scope: &str, css: &str, attr: &str) -> (r: Vec<Vec<Option<String>>>)
    ensures
        r@.map_values(|v: Vec<Option<String>>| opt_views(v@)) == css_scoped_attrs(html@, scope@, css@, attr@),
{
    let doc = scraper::Html::parse_document(html);
    match (scraper::Selector::parse(scope), scraper::Selector::parse(css)) {
        (Ok(outer), Ok(inner)) => doc.select(&outer).map(
            |e| e.select(&inner).map(|m| m.value().attr(attr).map(|v| v.to_string())).collect(),
        ).collect(),
        _ => Vec::new(),
    }
}

/// The first text of a list, if any.
pub open spec fn first_of(s: Seq<Seq<char>>) -> Option<Seq<char>> {
    if s.len() > 0 {
        Some(s[0])
    } else {
        None
    }
}

/// The first attribute value of a list: none when the list is empty or its
/// first element lacks the attribute.
pub open spec fn first_attr(s: Seq<Option<Seq<char>>>) -> Option<Seq<char>> {
    if s.len() > 0 {
        s[0]
    } else {
        None
    }
}

fn first_text(v: &Vec<String>) -> (r: Option<String>)
    ensures
        opt_text(r) == first_of(string_views(v@)),
{
    if v.len() > 0 {
        Some(v[0].clone())
    } else {
        None
    }
}

fn first_attr_value(v: &Vec<Option<String>>) -> (r: Option<String>)
    ensures
        opt_text(r) == first_attr(opt_views(v@)),
{
    if v.len() > 0 {
        v[0].clone()
    } else {
        None
    }
}

pub const TITLE_SELECTOR: &'static str = "span[property='v:itemreviewed']";
pub const PAGE_TITLE_SELECTOR: &'static str = "title";
pub const YEAR_SELECTOR: &'static str = "span.year";
pub const RATING_SELECTOR: &'static str = "strong.rating_num";
pub const VOTES_SELECTOR: &'static str = "span[property='v:votes']";
pub const GENRE_SELECTOR: &'static str = "span[property='v:genre']";
pub const RUNTIME_SELECTOR: &'static str = "span[property='v:runtime']";
pub const FULL_SUMMARY_SELECTOR: &'static str = "span.all.hidden";
pub const SUMMARY_SELECTOR: &'static str = "span[property='v:summary']";
pub const POSTER_SELECTOR: &'static str = "#mainpic img";
pub const DIRECTOR_SELECTOR: &'static str = "a[rel='v:directedBy']";
pub const STARRING_SELECTOR: &'static str = "a[rel='v:starring']";

/// A page count read off an optional text: the trimmed text as an `i32`,
/// else zero.
pub open spec fn count_of_seq(t: Option<Seq<char>>) -> i32 {
    match t {
        Some(s) => match parse_i32_spec(trim_seq(s)) {
            Some(n) => n,
            None => 0,
        },
        None => 0,
    }
}

/// What a credited person is, field by field: id, name, address, whether
/// avatars are absent, and roles.
pub open spec fn celebrity_view(c: DoubanCelebrity) -> (Seq<char>, Seq<char>, Option<Seq<char>>, bool, Option<
    Seq<Seq<char>>,
>) {
    (
        c.id@,
        c.name@,
        opt_text(c.alt),
        c.avatars is None,
        match c.roles {
            Some(r) => Some(string_views(r@)),
            None => None,
        },
    )
}

/// The person a credit link with this text and address names.
pub open spec fn credit_view(text: Seq<char>, href: Seq<char>, director: bool) -> (Seq<char>, Seq<char>, Option<
    Seq<char>,
>, bool, Option<Seq<Seq<char>>>) {
    (
        link_id(href),
        trim_seq(text),
        Some(href),
        true,
        if director {
            Some(seq!["导演"@])
        } else {
            None
        },
    )
}

/// The `i`-th attribute value of a list, or the empty text.
pub open spec fn attr_at(attrs: Seq<Option<Seq<char>>>, i: int) -> Seq<char> {
    if 0 <= i < attrs.len() {
        match attrs[i] {
            Some(a) => a,
            None => Seq::empty(),
        }
    } else {
        Seq::empty()
    }
}

/// The people credited by the first `n` links (texts and addresses), in
/// order, skipping links without a name.
pub open spec fn credits_spec(texts: Seq<Seq<char>>, hrefs: Seq<Option<Seq<char>>>, director: bool, n: int) -> Seq<
    (Seq<char>, Seq<char>, Option<Seq<char>>, bool, Option<Seq<Seq<char>>>),
>
    decreases n,
{
    if n <= 0 {
        Seq::empty()
    } else {
        let prev = credits_spec(texts, hrefs, director, n - 1);
        if trim_seq(texts[n - 1]).len() > 0 {
            prev.push(credit_view(texts[n - 1], attr_at(hrefs, n - 1), director))
        } else {
            prev
        }
    }
}

fn credits(texts: &Vec<String>, hrefs: &Vec<Option<String>>, director: bool) -> (r: Vec<DoubanCelebrity>)
    ensures
        r@.map_values(|c: DoubanCelebrity| celebrity_view(c)) == credits_spec(
            string_views(texts@),
            opt_views(hrefs@),
            director,
            texts.len() as int,
        ),
{
    let ghost tv = string_views(texts@);
    let ghost hv = opt_views(hrefs@);
    let mut r: Vec<DoubanCelebrity> = Vec::new();
    let mut i: usize = 0;
    while i < texts.len()
        invariant
            i <= texts.len(),
            tv == string_views(texts@),
            hv == opt_views(hrefs@),
            r@.map_values(|c: DoubanCelebrity| celebrity_view(c)) == credits_spec(tv, hv, director, i as int),
        decreases texts.len() - i,
    {
        let href = if i < hrefs.len() {
            hrefs[i].clone()
        } else {
            None
        };
        assert(text_or_empty(href) == attr_at(hv, i as int));
        assert(tv[i as int] == texts@[i as int]@);
        let ghost before = r@;
        match celebrity_from_link(texts[i].as_str(), &href, director) {
            Some(c) => {
                proof {
                    if director {
                        assert(c.roles is Some);
                        assert(string_views(c.roles->Some_0@) =~= seq!["导演"@]);
                    }
                    assert(celebrity_view(c) == credit_view(tv[i as int], attr_at(hv, i as int), director));
                }
                r.push(c);
                assert(r@.map_values(|c: DoubanCelebrity| celebrity_view(c)) =~= before.map_values(
                    |c: DoubanCelebrity| celebrity_view(c),
                ).push(credit_view(tv[i as int], attr_at(hv, i as int), director)));
            },
            None => {},
        }
        i += 1;
    }
    r
}

fn trimmed_all(v: &Vec<String>) -> (r: Vec<String>)
    ensures
        string_views(r@) == string_views(v@).map_values(|s: Seq<char>| trim_seq(s)),
{
    let mut r: Vec<String> = Vec::new();
    let mut i: usize = 0;
    while i < v.len()
        invariant
            i <= v.len(),
            r.len() == i,
            forall|j: int| 0 <= j < i ==> #[trigger] r@[j]@ == trim_seq(v@[j]@),
        decreases v.len() - i,
    {
        let t = trim(v[i].as_str());
        r.push(t);
        i += 1;
    }
    assert(string_views(r@) =~= string_views(v@).map_values(|s: Seq<char>| trim_seq(s)));
    r
}

/// What a subject page says. The rating is the text of the average, as
/// printed.
#[derive(Debug)]
pub struct SubjectPage {
    pub id: String,
    pub url: String,
    pub title: String,
    pub year: Option<String>,
    pub rating_text: Option<String>,
    pub ratings_count: i32,
    pub genres: Vec<String>,
    pub durations: Vec<String>,
    pub summary: Option<String>,
    pub poster: String,
    pub directors: Vec<DoubanCelebrity>,
    pub casts: Vec<DoubanCelebrity>,
}

/// A subject's title: the marked-up title, trimmed, else the page title up
/// to its first space, else nothing.
pub open spec fn page_title_spec(html: Seq<char>) -> Seq<char> {
    match first_of(css_texts(html, TITLE_SELECTOR@)) {
        Some(t) => trim_seq(t),
        None => match first_of(css_texts(html, PAGE_TITLE_SELECTOR@)) {
            Some(t) => title_of_page_title(t),
            None => Seq::empty(),
        },
    }
}

/// A subject's summary: the full one when the page has it, else the short
/// one, cleaned.
pub open spec fn page_summary_spec(html: Seq<char>) -> Option<Seq<char>> {
    match first_of(css_texts(html, FULL_SUMMARY_SELECTOR@)) {
        Some(t) => Some(summary_of_text(t)),
        None => match first_of(css_texts(html, SUMMARY_SELECTOR@)) {
            Some(t) => Some(summary_of_text(t)),
            None => None,
        },
    }
}

/// What a subject page says, each field as its selector finds it.
pub open spec fn is_subject_page(p: SubjectPage, html: Seq<char>, subject_id: Seq<char>, url: Seq<char>) -> bool {
    &&& p.id@ == subject_id
    &&& p.url@ == url
    &&& p.title@ == page_title_spec(html)
    &&& opt_text(p.year) == (match first_of(css_texts(html, YEAR_SELECTOR@)) {
        Some(t) => Some(year_of_text(t)),
        None => None,
    })
    &&& opt_text(p.rating_text) == (match first_of(css_texts(html, RATING_SELECTOR@)) {
        Some(t) => Some(trim_seq(t)),
        None => None,
    })
    &&& p.ratings_count == count_of_seq(first_of(css_texts(html, VOTES_SELECTOR@)))
    &&& string_views(p.genres@) == css_texts(html, GENRE_SELECTOR@).map_values(|s: Seq<char>| trim_seq(s))
    &&& string_views(p.durations@) == css_texts(html, RUNTIME_SELECTOR@).map_values(
        |s: Seq<char>| trim_seq(s),
    )
    &&& opt_text(p.summary) == page_summary_spec(html)
    &&& p.poster@ == (match first_attr(css_attrs(html, POSTER_SELECTOR@, "src"@)) {
        Some(s) => s,
        None => Seq::empty(),
    })
    &&& p.directors@.map_values(|c: DoubanCelebrity| celebrity_view(c)) == credits_spec(
        css_texts(html, DIRECTOR_SELECTOR@),
        css_attrs(html, DIRECTOR_SELECTOR@, "href"@),
        true,
        css_texts(html, DIRECTOR_SELECTOR@).len() as int,
    )
    &&& p.casts@.map_values(|c: DoubanCelebrity| celebrity_view(c)) == credits_spec(
        css_texts(html, STARRING_SELECTOR@),
        css_attrs(html, STARRING_SELECTOR@, "href"@),
        false,
        css_texts(html, STARRING_SELECTOR@).len() as int,
    )
}

/// Reads a subject page; `url` is the address it was fetched from.
pub fn read_subject_page(html: &str, subject_id: String, url: String) -> (r: SubjectPage)
    ensures
        is_subject_page(r, html@, subject_id@, url@),
{
    let title = match first_text(&select_texts(html, TITLE_SELECTOR)) {
        Some(t) => trim(t.as_str()),
        None => match first_text(&select_texts(html, PAGE_TITLE_SELECTOR)) {
            Some(t) => title_from_page_title(t.as_str()),
            None => String::new(),
        },
    };
    let year = match first_text(&select_texts(html, YEAR_SELECTOR)) {
        Some(t) => Some(clean_year_text(t.as_str())),
        None => None,
    };
    let rating_text = match first_text(&select_texts(html, RATING_SELECTOR)) {
        Some(t) => Some(trim(t.as_str())),
        None => None,
    };
    let votes = first_text(&select_texts(html, VOTES_SELECTOR));
    let ratings_count = count_from_text(&votes);
    let genres = trimmed_all(&select_texts(html, GENRE_SELECTOR));
    let durations = trimmed_all(&select_texts(html, RUNTIME_SELECTOR));
    let summary = match first_text(&select_texts(html, FULL_SUMMARY_SELECTOR)) {
        Some(t) => Some(clean_summary_text(t.as_str())),
        None => match first_text(&select_texts(html, SUMMARY_SELECTOR)) {
            Some(t) => Some(clean_summary_text(t.as_str())),
            None => None,
        },
    };
    let poster = match first_attr_value(&select_attrs(html, POSTER_SELECTOR, "src")) {
        Some(s) => s,
        None => String::new(),
    };
    let directors = credits(
        &select_texts(html, DIRECTOR_SELECTOR),
        &select_attrs(html, DIRECTOR_SELECTOR, "href"),
        true,
    );
    let casts = credits(
        &select_texts(html, STARRING_SELECTOR),
        &select_attrs(html, STARRING_SELECTOR, "href"),
        false,
    );
    SubjectPage {
        id: subject_id,
        url,
        title,
        year,
        rating_text,
        ratings_count,
        genres,
        durations,
        summary,
        poster,
        directors,
        casts,
    }
}

pub const COMMENT_ITEM_SELECTOR: &'static str = ".comment-item";
pub const AVATAR_SELECTOR: &'static str = ".avatar a img";
pub const USER_LINK_SELECTOR: &'static str = ".comment-info a";
pub const STARS_SELECTOR: &'static str = ".comment-info .rating";
pub const SHORT_SELECTOR: &'static str = ".short";
pub const COMMENT_TIME_SELECTOR: &'static str = ".comment-time";
pub const VOTE_COUNT_SELECTOR: &'static str = ".vote-count";
pub const COMMENT_TOTAL_SELECTOR: &'static str = ".mod-hd h2 span";

/// The pattern whose group 1 is the star count (in tenths of the five-star
/// scale) in a rating's class.
pub const STARS_PATTERN: &'static str = "allstar(\\d+)";

/// What a comment item of the page holds, as its selectors find it.
#[derive(Debug, Clone)]
pub struct CommentFields {
    pub cid: Option<String>,
    pub avatar_src: Option<String>,
    pub link_text: Option<String>,
    pub link_href: Option<String>,
    pub star_class: Option<String>,
    pub short_text: Option<String>,
    pub time_found: bool,
    pub time_title: Option<String>,
    pub time_text: Option<String>,
    pub vote_text: Option<String>,
}

/// The fields of a comment item as sequences.
pub ghost struct CommentFieldsView {
    pub cid: Option<Seq<char>>,
    pub avatar_src: Option<Seq<char>>,
    pub link_text: Option<Seq<char>>,
    pub link_href: Option<Seq<char>>,
    pub star_class: Option<Seq<char>>,
    pub short_text: Option<Seq<char>>,
    pub time_found: bool,
    pub time_title: Option<Seq<char>>,
    pub time_text: Option<Seq<char>>,
    pub vote_text: Option<Seq<char>>,
}

impl View for CommentFields {
    type V = CommentFieldsView;

    open spec fn view(&self) -> CommentFieldsView {
        CommentFieldsView {
            cid: opt_text(self.cid),
            avatar_src: opt_text(self.avatar_src),
            link_text: opt_text(self.link_text),
            link_href: opt_text(self.link_href),
            star_class: opt_text(self.star_class),
            short_text: opt_text(self.short_text),
            time_found: self.time_found,
            time_title: opt_text(self.time_title),
            time_text: opt_text(self.time_text),
            vote_text: opt_text(self.vote_text),
        }
    }
}

/// The first text found in the `i`-th scope, if any.
pub open spec fn first_in(rows: Seq<Seq<Seq<char>>>, i: int) -> Option<Seq<char>> {
    if 0 <= i < rows.len() {
        first_of(rows[i])
    } else {
        None
    }
}

/// The first attribute value found in the `i`-th scope, if any.
pub open spec fn first_attr_in(rows: Seq<Seq<Option<Seq<char>>>>, i: int) -> Option<Seq<char>> {
    if 0 <= i < rows.len() {
        first_attr(rows[i])
    } else {
        None
    }
}

/// The `i`-th attribute value of a list, if any.
pub open spec fn attr_opt_at(attrs: Seq<Option<Seq<char>>>, i: int) -> Option<Seq<char>> {
    if 0 <= i < attrs.len() {
        attrs[i]
    } else {
        None
    }
}

/// The number of comment items of a page.
pub open spec fn comment_item_count_spec(html: Seq<char>) -> int {
    css_attrs(html, COMMENT_ITEM_SELECTOR@, "data-cid"@).len() as int
}

/// What the `i`-th comment item of a page holds.
pub open spec fn item_fields(html: Seq<char>, i: int) -> CommentFieldsView {
    let item = COMMENT_ITEM_SELECTOR@;
    CommentFieldsView {
        cid: attr_opt_at(css_attrs(html, item, "data-cid"@), i),
        avatar_src: first_attr_in(css_scoped_attrs(html, item, AVATAR_SELECTOR@, "src"@), i),
        link_text: first_in(css_scoped_texts(html, item, USER_LINK_SELECTOR@), i),
        link_href: first_attr_in(css_scoped_attrs(html, item, USER_LINK_SELECTOR@, "href"@), i),
        star_class: first_attr_in(css_scoped_attrs(html, item, STARS_SELECTOR@, "class"@), i),
        short_text: first_in(css_scoped_texts(html, item, SHORT_SELECTOR@), i),
        time_found: first_in(css_scoped_texts(html, item, COMMENT_TIME_SELECTOR@), i) is Some,
        time_title: first_attr_in(css_scoped_attrs(html, item, COMMENT_TIME_SELECTOR@, "title"@), i),
        time_text: first_in(css_scoped_texts(html, item, COMMENT_TIME_SELECTOR@), i),
        vote_text: first_in(css_scoped_texts(html, item, VOTE_COUNT_SELECTOR@), i),
    }
}

fn first_text_in(rows: &Vec<Vec<String>>, i: usize) -> (r: Option<String>)
    ensures
        opt_text(r) == first_in(rows@.map_values(|v: Vec<String>| string_views(v@)), i as int),
{
    if i < rows.len() {
        assert(rows@.map_values(|v: Vec<String>| string_views(v@))[i as int] == string_views(rows@[i as int]@));
        first_text(&rows[i])
    } else {
        None
    }
}

fn first_attr_value_in(rows: &Vec<Vec<Option<String>>>, i: usize) -> (r: Option<String>)
    ensures
        opt_text(r) == first_attr_in(rows@.map_values(|v: Vec<Option<String>>| opt_views(v@)), i as int),
{
    if i < rows.len() {
        assert(rows@.map_values(|v: Vec<Option<String>>| opt_views(v@))[i as int] == opt_views(
            rows@[i as int]@,
        ));
        first_attr_value(&rows[i])
    } else {
        None
    }
}

/// The number of comment items of a page.
pub fn comment_item_count(html: &str) -> (r: usize)
    ensures
        r as int == comment_item_count_spec(html@),
{
    select_attrs(html, COMMENT_ITEM_SELECTOR, "data-cid").len()
}

/// What each comment item of a page holds, in order.
pub fn comment_fields(html: &str) -> (r: Vec<CommentFields>)
    ensures
        r.len() == comment_item_count_spec(html@),
        forall|i: int| 0 <= i < r.len() ==> #[trigger] r@[i]@ == item_fields(html@, i),
{
    let item = COMMENT_ITEM_SELECTOR;
    let cids = select_attrs(html, item, "data-cid");
    let avatars = select_scoped_attrs(html, item, AVATAR_SELECTOR, "src");
    let link_texts = select_scoped_texts(html, item, USER_LINK_SELECTOR);
    let link_hrefs = select_scoped_attrs(html, item, USER_LINK_SELECTOR, "href");
    let stars = select_scoped_attrs(html, item, STARS_SELECTOR, "class");
    let shorts = select_scoped_texts(html, item, SHORT_SELECTOR);
    let time_texts = select_scoped_texts(html, item, COMMENT_TIME_SELECTOR);
    let time_titles = select_scoped_attrs(html, item, COMMENT_TIME_SELECTOR, "title");
    let votes = select_scoped_texts(html, item, VOTE_COUNT_SELECTOR);
    let mut r: Vec<CommentFields> = Vec::new();
    let mut i: usize = 0;
    while i < cids.len()
        invariant
            i <= cids.len(),
            opt_views(cids@) == css_attrs(html@, COMMENT_ITEM_SELECTOR@, "data-cid"@),
            avatars@.map_values(|v: Vec<Option<String>>| opt_views(v@)) == css_scoped_attrs(
                html@,
                COMMENT_ITEM_SELECTOR@,
                AVATAR_SELECTOR@,
                "src"@,
            ),
            link_texts@.map_values(|v: Vec<String>| string_views(v@)) == css_scoped_texts(
                html@,
                COMMENT_ITEM_SELECTOR@,
                USER_LINK_SELECTOR@,
            ),
            link_hrefs@.map_values(|v: Vec<Option<String>>| opt_views(v@)) == css_scoped_attrs(
                html@,
                COMMENT_ITEM_SELECTOR@,
                USER_LINK_SELECTOR@,
                "href"@,
            ),
            stars@.map_values(|v: Vec<Option<String>>| opt_views(v@)) == css_scoped_attrs(
                html@,
                COMMENT_ITEM_SELECTOR@,
                STARS_SELECTOR@,
                "class"@,
            ),
            shorts@.map_values(|v: Vec<String>| string_views(v@)) == css_scoped_texts(
                html@,
                COMMENT_ITEM_SELECTOR@,
                SHORT_SELECTOR@,
            ),
            time_texts@.map_values(|v: Vec<String>| string_views(v@)) == css_scoped_texts(
                html@,
                COMMENT_ITEM_SELECTOR@,
                COMMENT_TIME_SELECTOR@,
            ),
            time_titles@.map_values(|v: Vec<Option<String>>| opt_views(v@)) == css_scoped_attrs(
                html@,
                COMMENT_ITEM_SELECTOR@,
                COMMENT_TIME_SELECTOR@,
                "title"@,
            ),
            votes@.map_values(|v: Vec<String>| string_views(v@)) == css_scoped_texts(
                html@,
                COMMENT_ITEM_SELECTOR@,
                VOTE_COUNT_SELECTOR@,
            ),
            r.len() == i,
            forall|j: int| 0 <= j < i ==> #[trigger] r@[j]@ == item_fields(html@, j),
        decreases cids.len() - i,
    {
        assert(opt_views(cids@)[i as int] == opt_text(cids@[i as int]));
        let time_text = first_text_in(&time_texts, i);
        let f = CommentFields {
            cid: cids[i].clone(),
            avatar_src: first_attr_value_in(&avatars, i),
            link_text: first_text_in(&link_texts, i),
            link_href: first_attr_value_in(&link_hrefs, i),
            star_class: first_attr_value_in(&stars, i),
            short_text: first_text_in(&shorts, i),
            time_found: time_text.is_some(),
            time_title: first_attr_value_in(&time_titles, i),
            time_text,
            vote_text: first_text_in(&votes, i),
        };
        assert(f@ == item_fields(html@, i as int));
        r.push(f);
        i += 1;
    }
    r
}

/// A short comment. The rating is the star count read off the rating's
/// class (in tenths of the five-star scale), as digits.
#[derive(Debug)]
pub struct ShortComment {
    pub id: String,
    pub created_at: String,
    pub content: String,
    pub useful_count: i32,
    pub star_digits: Option<String>,
    pub author: DoubanAuthor,
}

/// A comment's author, field by field: id, uid, name, avatar, address.
pub open spec fn author_view(a: DoubanAuthor) -> (Seq<char>, Seq<char>, Seq<char>, Seq<char>, Option<Seq<char>>) {
    (a.id@, a.uid@, a.name@, a.avatar@, opt_text(a.alt))
}

/// A short comment, field by field.
pub open spec fn short_comment_view(c: ShortComment) -> (
    Seq<char>,
    Seq<char>,
    Seq<char>,
    i32,
    Option<Seq<char>>,
    (Seq<char>, Seq<char>, Seq<char>, Seq<char>, Option<Seq<char>>),
) {
    (c.id@, c.created_at@, c.content@, c.useful_count, opt_text(c.star_digits), author_view(c.author))
}

/// An optional text, or the empty text.
pub open spec fn seq_or_empty(o: Option<Seq<char>>) -> Seq<char> {
    match o {
        Some(s) => s,
        None => Seq::empty(),
    }
}

/// The comment an item holds, `fresh_token` naming it when the item has no
/// id: none when its short text, trimmed, is empty.
pub open spec fn comment_of_fields(f: CommentFieldsView, fresh_token: Seq<char>) -> Option<
    (
        Seq<char>,
        Seq<char>,
        Seq<char>,
        i32,
        Option<Seq<char>>,
        (Seq<char>, Seq<char>, Seq<char>, Seq<char>, Option<Seq<char>>),
    ),
> {
    let content = trim_seq(seq_or_empty(f.short_text));
    if content.len() == 0 {
        None
    } else {
        let name = trim_seq(seq_or_empty(f.link_text));
        let href = seq_or_empty(f.link_href);
        Some(
            (
                match f.cid {
                    Some(c) => c,
                    None => "sc_"@ + fresh_token,
                },
                if !f.time_found {
                    Seq::empty()
                } else {
                    match f.time_title {
                        Some(t) => t,
                        None => trim_seq(seq_or_empty(f.time_text)),
                    }
                },
                content,
                count_of_seq(f.vote_text),
                match f.star_class {
                    Some(c) => regex_group1(STARS_PATTERN@, c),
                    None => None,
                },
                (
                    link_id(href),
                    name,
                    name,
                    crate::subject::larger_avatar(seq_or_empty(f.avatar_src)),
                    Some(href),
                ),
            ),
        )
    }
}

/// The comment an item holds, if it has text.
pub fn short_comment(f: &CommentFields, fresh_token: &str) -> (r: Option<ShortComment>)
    ensures
        match r {
            Some(c) => comment_of_fields(f@, fresh_token@) == Some(short_comment_view(c)),
            None => comment_of_fields(f@, fresh_token@) is None,
        },
{
    let content = match &f.short_text {
        Some(t) => trim(t.as_str()),
        None => String::new(),
    };
    if content.as_str().is_empty() {
        return None;
    }
    let author = comment_author(&f.link_text, &f.link_href, &f.avatar_src);
    let created_at = match &f.time_text {
        Some(t) => comment_time(f.time_found, &f.time_title, t.as_str()),
        None => comment_time(f.time_found, &f.time_title, ""),
    };
    proof {
        reveal_strlit("");
        assert(""@ =~= Seq::<char>::empty());
    }
    let star_digits = match &f.star_class {
        Some(c) => first_capture(STARS_PATTERN, c.as_str()),
        None => None,
    };
    let c = ShortComment {
        id: comment_id(&f.cid, fresh_token),
        created_at,
        content,
        useful_count: count_from_text(&f.vote_text),
        star_digits,
        author,
    };
    assert(is_author_of(c.author, f.link_text, f.link_href, f.avatar_src));
    Some(c)
}

/// The token for the `i`-th item, or the empty text.
pub open spec fn token_at(tokens: Seq<Seq<char>>, i: int) -> Seq<char> {
    if 0 <= i < tokens.len() {
        tokens[i]
    } else {
        Seq::empty()
    }
}

/// The comments of the first `n` items of a page, in order, skipping items
/// without text; item `i` is named by `tokens[i]` when it has no id.
pub open spec fn page_comments(html: Seq<char>, tokens: Seq<Seq<char>>, n: int) -> Seq<
    (
        Seq<char>,
        Seq<char>,
        Seq<char>,
        i32,
        Option<Seq<char>>,
        (Seq<char>, Seq<char>, Seq<char>, Seq<char>, Option<Seq<char>>),
    ),
>
    decreases n,
{
    if n <= 0 {
        Seq::empty()
    } else {
        let prev = page_comments(html, tokens, n - 1);
        match comment_of_fields(item_fields(html, n - 1), token_at(tokens, n - 1)) {
            Some(c) => prev.push(c),
            None => prev,
        }
    }
}

/// The comments of a page; item `i` without an id is named by
/// `fresh_tokens[i]`.
pub fn read_comments(html: &str, fresh_tokens: &Vec<String>) -> (r: Vec<ShortComment>)
    ensures
        r@.map_values(|c: ShortComment| short_comment_view(c)) == page_comments(
            html@,
            string_views(fresh_tokens@),
            comment_item_count_spec(html@),
        ),
{
    let fields = comment_fields(html);
    let ghost tokens = string_views(fresh_tokens@);
    let mut r: Vec<ShortComment> = Vec::new();
    let mut i: usize = 0;
    while i < fields.len()
        invariant
            i <= fields.len(),
            fields.len() == comment_item_count_spec(html@),
            forall|j: int| 0 <= j < fields.len() ==> #[trigger] fields@[j]@ == item_fields(html@, j),
            tokens == string_views(fresh_tokens@),
            r@.map_values(|c: ShortComment| short_comment_view(c)) == page_comments(html@, tokens, i as int),
        decreases fields.len() - i,
    {
        let token = if i < fresh_tokens.len() {
            fresh_tokens[i].as_str()
        } else {
            ""
        };
        proof {
            reveal_strlit("");
            assert(""@ =~= Seq::<char>::empty());
        }
        assert(token@ == token_at(tokens, i as int));
        assert(fields@[i as int]@ == item_fields(html@, i as int));
        let ghost before = r@;
        match short_comment(&fields[i], token) {
            Some(c) => {
                r.push(c);
                assert(r@.map_values(|c: ShortComment| short_comment_view(c)) =~= before.map_values(
                    |c: ShortComment| short_comment_view(c),
                ).push(short_comment_view(c)));
            },
            None => {},
        }
        i += 1;
    }
    r
}

/// A page of short comments: where it starts, how many were asked for,
/// the total the page gives, and the comments read.
#[derive(Debug)]
pub struct CommentsPage {
    pub start: i32,
    pub count: i32,
    pub total: i32,
    pub comments: Vec<ShortComment>,
}

/// The heading that counts a subject's comments, or the empty text.
pub open spec fn comment_heading(html: Seq<char>) -> Seq<char> {
    seq_or_empty(first_of(css_texts(html, COMMENT_TOTAL_SELECTOR@)))
}

/// Reads a page of short comments asked for from `start` (0 by default),
/// `count` of them (the number read by default).
pub fn read_comments_page(html: &str, start: Option<i32>, count: Option<i32>, fresh_tokens: &Vec<String>) -> (r:
    CommentsPage)
    ensures
        r.comments@.map_values(|c: ShortComment| short_comment_view(c)) == page_comments(
            html@,
            string_views(fresh_tokens@),
            comment_item_count_spec(html@),
        ),
        r.start == (match start {
            Some(s) => s,
            None => 0,
        }),
        r.count == (match count {
            Some(c) => c,
            None => r.comments.len() as i32,
        }),
        r.total == comment_total_spec(comment_heading(html@), r.comments.len()),
{
    let comments = read_comments(html, fresh_tokens);
    let heading = match first_text(&select_texts(html, COMMENT_TOTAL_SELECTOR)) {
        Some(h) => h,
        None => String::new(),
    };
    let total = comment_total(heading.as_str(), comments.len());
    let read = #[verifier::truncate] (comments.len() as i32);
    CommentsPage {
        start: match start {
            Some(s) => s,
            None => 0,
        },
        count: match count {
            Some(c) => c,
            None => read,
        },
        total,
        comments,
    }
}

} // verus!
