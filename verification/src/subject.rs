//! Douban subject pages: their addresses, and the text read off them.

use vstd::prelude::*;
use crate::numtext::{int_text, i32_to_string, parse_i32, parse_i32_spec};
use crate::text::{
    first_capture, regex_group1, replace, replace_seq, split, split_seq, str_eq, trim, trim_seq,
};
use crate::video::string_views;

verus! {

/// The three sizes of an image.
#[derive(Debug)]
pub struct DoubanAvatars {
    pub small: String,
    pub medium: String,
    pub large: String,
}

impl Clone for DoubanAvatars {
    fn clone(&self) -> (r: Self)
        ensures
            r == *self,
    {
        DoubanAvatars {
            small: self.small.clone(),
            medium: self.medium.clone(),
            large: self.large.clone(),
        }
    }
}

/// A person credited on a subject page.
#[derive(Debug, Clone)]
pub struct DoubanCelebrity {
    pub id: String,
    pub name: String,
    pub alt: Option<String>,
    pub avatars: Option<DoubanAvatars>,
    pub roles: Option<Vec<String>>,
}

/// The author of a short comment.
#[derive(Debug)]
pub struct DoubanAuthor {
    pub id: String,
    pub uid: String,
    pub name: String,
    pub avatar: String,
    pub alt: Option<String>,
}

impl Clone for DoubanAuthor {
    fn clone(&self) -> (r: Self)
        ensures
            r == *self,
    {
        DoubanAuthor {
            id: self.id.clone(),
            uid: self.uid.clone(),
            name: self.name.clone(),
            avatar: self.avatar.clone(),
            alt: self.alt.clone(),
        }
    }
}

/// The address of a subject page, or of its short comments (from `start`,
/// 0 by default, `count` of them, 20 by default).
pub open spec fn subject_url(subject_id: Seq<char>, data_type: Seq<char>, start: Option<i32>, count: Option<i32>) -> Seq<char> {
    if data_type == "comments"@ {
        "https://movie.douban.com/subject/"@ + subject_id + "/comments?status=P&sort=new_score&start="@
            + int_text(
            match start {
                Some(s) => s as int,
                None => 0,
            },
        ) + "&count="@ + int_text(
            match count {
                Some(c) => c as int,
                None => 20,
            },
        )
    } else {
        "https://movie.douban.com/subject/"@ + subject_id + "/"@
    }
}

pub fn douban_subject_url(subject_id: &str, data_type: &str, start: Option<i32>, count: Option<i32>) -> (r: String)
    ensures
        r@ == subject_url(subject_id@, data_type@, start, count),
{
    let mut u = String::from_str("https://movie.douban.com/subject/");
    u.append(subject_id);
    if str_eq(data_type, "comments") {
        u.append("/comments?status=P&sort=new_score&start=");
        let st = match start {
            Some(s) => s,
            None => 0,
        };
        u.append(i32_to_string(st).as_str());
        u.append("&count=");
        let c = match count {
            Some(c) => c,
            None => 20,
        };
        u.append(i32_to_string(c).as_str());
    } else {
        u.append("/");
    }
    u
}

/// The last non-empty piece of a path split at slashes, or nothing.
pub open spec fn last_nonempty(pieces: Seq<Seq<char>>) -> Seq<char>
    decreases pieces.len(),
{
    if pieces.len() == 0 {
        Seq::empty()
    } else if pieces.last().len() > 0 {
        pieces.last()
    } else {
        last_nonempty(pieces.drop_last())
    }
}

/// The id at the end of a profile or subject link.
pub open spec fn link_id(href: Seq<char>) -> Seq<char> {
    last_nonempty(split_seq(href, "/"@))
}

pub fn last_path_segment(href: &str) -> (r: String)
    ensures
        r@ == link_id(href@),
{
    proof {
        reveal_strlit("/");
    }
    let pieces = split(href, "/");
    let ghost pv = string_views(pieces@);
    let mut n = pieces.len();
    assert(pv.take(n as int) =~= pv);
    while n > 0
        invariant
            n <= pieces.len(),
            pv == string_views(pieces@),
            pv == split_seq(href@, "/"@),
            last_nonempty(pv) == last_nonempty(pv.take(n as int)),
        decreases n,
    {
        assert(pv.take(n as int).last() == pieces@[n - 1]@);
        assert(pv.take(n as int).drop_last() =~= pv.take(n - 1));
        if !pieces[n - 1].as_str().is_empty() {
            return pieces[n - 1].clone();
        }
        n -= 1;
    }
    String::new()
}

/// An avatar address switched from the small square picture to the medium
/// one.
pub open spec fn larger_avatar(src: Seq<char>) -> Seq<char> {
    replace_seq(replace_seq(src, "/u/pido/"@, "/u/"@), "s_ratio"@, "m_ratio"@)
}

pub fn upgraded_avatar_url(src: &str) -> (r: String)
    ensures
        r@ == larger_avatar(src@),
{
    proof {
        reveal_strlit("/u/pido/");
        reveal_strlit("s_ratio");
    }
    let a = replace(src, "/u/pido/", "/u/");
    replace(a.as_str(), "s_ratio", "m_ratio")
}

/// An optional text, or nothing.
pub open spec fn text_or_empty(o: Option<String>) -> Seq<char> {
    match o {
        Some(s) => s@,
        None => Seq::empty(),
    }
}

/// The author of a comment from its user link (text and address) and its
/// avatar picture: the trimmed name is both name and uid, the id ends the
/// link, and the avatar is the medium picture.
pub open spec fn is_author_of(a: DoubanAuthor, link_text: Option<String>, link_href: Option<String>, avatar_src: Option<String>) -> bool {
    &&& a.id@ == link_id(text_or_empty(link_href))
    &&& a.uid@ == trim_seq(text_or_empty(link_text))
    &&& a.name@ == trim_seq(text_or_empty(link_text))
    &&& a.avatar@ == larger_avatar(text_or_empty(avatar_src))
    &&& a.alt matches Some(alt) && alt@ == text_or_empty(link_href)
}

fn or_empty(o: &Option<String>) -> (r: String)
    ensures
        r@ == text_or_empty(*o),
{
    match o {
        Some(s) => s.clone(),
        None => String::new(),
    }
}

pub fn comment_author(link_text: &Option<String>, link_href: &Option<String>, avatar_src: &Option<String>) -> (r: DoubanAuthor)
    ensures
        is_author_of(r, *link_text, *link_href, *avatar_src),
{
    let name = trim(or_empty(link_text).as_str());
    let href = or_empty(link_href);
    DoubanAuthor {
        id: last_path_segment(href.as_str()),
        uid: name.clone(),
        name,
        avatar: upgraded_avatar_url(or_empty(avatar_src).as_str()),
        alt: Some(href),
    }
}

/// The time of a comment: the element's title when it has one, else its
/// trimmed text; nothing without the element.
pub fn comment_time(has_element: bool, title_attr: &Option<String>, text: &str) -> (r: String)
    ensures
        r@ == if !has_element {
            Seq::empty()
        } else {
            match title_attr {
                Some(t) => t@,
                None => trim_seq(text@),
            }
        },
{
    if !has_element {
        return String::new();
    }
    match title_attr {
        Some(t) => t.clone(),
        None => trim(text),
    }
}

/// A count read off a page: the trimmed text as an `i32`, zero when it is
/// not one or when there is no text.
pub open spec fn count_of_text(text: Option<String>) -> i32 {
    match text {
        Some(t) => match parse_i32_spec(trim_seq(t@)) {
            Some(n) => n,
            None => 0,
        },
        None => 0,
    }
}

pub fn count_from_text(text: &Option<String>) -> (r: i32)
    ensures
        r == count_of_text(*text),
{
    match text {
        Some(t) => {
            let tt = trim(t.as_str());
            match parse_i32(tt.as_str()) {
                Some(n) => n,
                None => 0,
            }
        },
        None => 0,
    }
}

/// The id of a comment: its `data-cid` when it has one, else `sc_` and a
/// fresh token.
pub fn comment_id(data_cid: &Option<String>, fresh_token: &str) -> (r: String)
    ensures
        r@ == match data_cid {
            Some(c) => c@,
            None => "sc_"@ + fresh_token@,
        },
{
    match data_cid {
        Some(c) => c.clone(),
        None => {
            let mut s = String::from_str("sc_");
            s.append(fresh_token);
            s
        },
    }
}

/// The pattern whose group 1 is the first run of digits of a text.
pub const DIGIT_RUN_PATTERN: &'static str = "(\\d+)";

/// The total of a comment list: the first number of the heading as an
/// `i32` (zero when it is not one), or the number of comments read when the
/// heading has none.
pub open spec fn comment_total_spec(heading: Seq<char>, comments_read: usize) -> i32 {
    match regex_group1(DIGIT_RUN_PATTERN@, heading) {
        Some(d) => match parse_i32_spec(d) {
            Some(n) => n,
            None => 0,
        },
        None => comments_read as i32,
    }
}

pub fn comment_total(heading: &str, comments_read: usize) -> (r: i32)
    ensures
        r == comment_total_spec(heading@, comments_read),
{
    match first_capture(DIGIT_RUN_PATTERN, heading) {
        Some(d) => match parse_i32(d.as_str()) {
            Some(n) => n,
            None => 0,
        },
        None => #[verifier::truncate] (comments_read as i32),
    }
}

/// A subject's year as printed beside its title, without the parentheses.
pub open spec fn year_of_text(text: Seq<char>) -> Seq<char> {
    trim_seq(replace_seq(replace_seq(text, "("@, ""@), ")"@, ""@))
}

pub fn clean_year_text(text: &str) -> (r: String)
    ensures
        r@ == year_of_text(text@),
{
    proof {
        reveal_strlit("(");
        reveal_strlit(")");
    }
    let a = replace(text, "(", "");
    let b = replace(a.as_str(), ")", "");
    trim(b.as_str())
}

/// A subject's summary: trimmed, its line breaks turned into spaces.
pub open spec fn summary_of_text(text: Seq<char>) -> Seq<char> {
    replace_seq(trim_seq(text), "\n"@, " "@)
}

pub fn clean_summary_text(text: &str) -> (r: String)
    ensures
        r@ == summary_of_text(text@),
{
    proof {
        reveal_strlit("\n");
    }
    let t = trim(text);
    replace(t.as_str(), "\n", " ")
}

/// The title read off a page's `<title>`: its text up to the first space.
pub open spec fn title_of_page_title(text: Seq<char>) -> Seq<char> {
    split_seq(text, " "@)[0]
}

pub fn title_from_page_title(text: &str) -> (r: String)
    ensures
        r@ == title_of_page_title(text@),
{
    proof {
        reveal_strlit(" ");
    }
    let pieces = split(text, " ");
    proof {
        crate::text::lemma_split_nonempty(text@, " "@);
    }
    assert(string_views(pieces@)[0] == pieces@[0]@);
    pieces[0].clone()
}

/// The person a credit link names: its trimmed text, the id that ends its
/// address, the address itself, and the role given; none without a name.
pub open spec fn celebrity_of_link(
    c: DoubanCelebrity,
    text: Seq<char>,
    href: Seq<char>,
    director: bool,
) -> bool {
    &&& c.id@ == link_id(href)
    &&& c.name@ == trim_seq(text)
    &&& c.alt matches Some(a) && a@ == href
    &&& c.avatars is None
    &&& if director {
        c.roles matches Some(roles) && string_views(roles@) == seq!["导演"@]
    } else {
        c.roles is None
    }
}

pub fn celebrity_from_link(text: &str, href: &Option<String>, director: bool) -> (r: Option<DoubanCelebrity>)
    ensures
        match r {
            Some(c) => trim_seq(text@).len() > 0 && celebrity_of_link(c, text@, text_or_empty(*href), director),
            None => trim_seq(text@).len() == 0,
        },
{
    let name = trim(text);
    if name.as_str().is_empty() {
        return None;
    }
    let href = or_empty(href);
    let roles = if director {
        let mut v: Vec<String> = Vec::new();
        v.push(String::from_str("导演"));
        assert(string_views(v@) =~= seq!["导演"@]);
        Some(v)
    } else {
        None
    };
    Some(
        DoubanCelebrity {
            id: last_path_segment(href.as_str()),
            name,
            alt: Some(href),
            avatars: None,
            roles,
        },
    )
}

} // verus!
