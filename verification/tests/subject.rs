use quantumtv::subject_page::{comment_item_count, read_comments_page, read_subject_page};
use quantumtv::subject::{
    celebrity_from_link, clean_summary_text, clean_year_text, comment_author, comment_id,
    comment_time, comment_total, count_from_text, douban_subject_url, last_path_segment,
    title_from_page_title, upgraded_avatar_url, DoubanAuthor, DoubanAvatars, DoubanCelebrity,
};

#[test]
fn subject_urls() {
    assert_eq!(
        douban_subject_url("123", "comments", None, Some(5)),
        "https://movie.douban.com/subject/123/comments?status=P&sort=new_score&start=0&count=5"
    );
    assert_eq!(douban_subject_url("123", "full", Some(3), None), "https://movie.douban.com/subject/123/");
}

#[test]
fn link_ids_and_avatars() {
    assert_eq!(last_path_segment("https://www.douban.com/people/abc/"), "abc");
    assert_eq!(last_path_segment("/celebrity/1054/"), "1054");
    assert_eq!(last_path_segment(""), "");
    assert_eq!(
        upgraded_avatar_url("https://img1.doubanio.com/icon/u/pido/123-s_ratio.jpg"),
        "https://img1.doubanio.com/icon/u/123-m_ratio.jpg"
    );
}

#[test]
fn comment_parts() {
    let author = comment_author(
        &Some("  Alice ".to_string()),
        &Some("https://www.douban.com/people/alice/".to_string()),
        &Some("https://img/u/pido/1s_ratio.jpg".to_string()),
    );
    assert_eq!(author.id, "alice");
    assert_eq!(author.name, "Alice");
    assert_eq!(author.uid, "Alice");
    assert_eq!(author.avatar, "https://img/u/1m_ratio.jpg");
    assert_eq!(author.alt, Some("https://www.douban.com/people/alice/".to_string()));
    assert_eq!(comment_time(true, &Some("2024-01-01 10:00".to_string()), " x "), "2024-01-01 10:00");
    assert_eq!(comment_time(true, &None, " 2024-01-01 "), "2024-01-01");
    assert_eq!(comment_time(false, &None, "x"), "");
    assert_eq!(count_from_text(&Some(" 42 ".to_string())), 42);
    assert_eq!(count_from_text(&Some("n/a".to_string())), 0);
    assert_eq!(count_from_text(&None), 0);
    assert_eq!(comment_id(&Some("c1".to_string()), "tok"), "c1");
    assert_eq!(comment_id(&None, "tok"), "sc_tok");
    assert_eq!(comment_total("全部 1234 条", 3), 1234);
    assert_eq!(comment_total("no digits", 3), 3);
}

#[test]
fn page_texts() {
    assert_eq!(clean_year_text("(2024)"), "2024");
    assert_eq!(clean_summary_text("  line one\nline two  "), "line one line two");
    assert_eq!(title_from_page_title("肖申克的救赎 (豆瓣)"), "肖申克的救赎");
    assert_eq!(title_from_page_title(""), "");
}

#[test]
fn credits() {
    let director = celebrity_from_link(" Frank ", &Some("/celebrity/1047973/".to_string()), true).expect("named");
    assert_eq!(director.id, "1047973");
    assert_eq!(director.name, "Frank");
    assert_eq!(director.roles, Some(vec!["导演".to_string()]));
    assert!(director.avatars.is_none());
    let cast = celebrity_from_link("Tim", &None, false).expect("named");
    assert_eq!(cast.id, "");
    assert_eq!(cast.alt, Some(String::new()));
    assert!(cast.roles.is_none());
    assert!(celebrity_from_link("   ", &None, false).is_none());
}

#[test]
fn douban_people_structs() {
    let avatars = DoubanAvatars { small: "s".to_string(), medium: "m".to_string(), large: "l".to_string() };
    let c = DoubanCelebrity {
        id: "1".to_string(),
        name: "N".to_string(),
        alt: None,
        avatars: Some(avatars.clone()),
        roles: None,
    };
    assert_eq!(c.avatars.unwrap().medium, "m");
    let a = DoubanAuthor {
        id: "i".to_string(),
        uid: "u".to_string(),
        name: "n".to_string(),
        avatar: "a".to_string(),
        alt: None,
    };
    assert_eq!(a.clone().uid, "u");
}

const SUBJECT_HTML: &str = r#"<html><head><title>肖申克的救赎 (豆瓣)</title></head><body>
<h1><span property="v:itemreviewed">  肖申克的救赎 The Shawshank Redemption </span><span class="year">(1994)</span></h1>
<div id="mainpic"><img src="https://img/p1.jpg"></div>
<a rel="v:directedBy" href="https://movie.douban.com/celebrity/1047973/">弗兰克·德拉邦特</a>
<a rel="v:starring" href="/celebrity/1054521/">蒂姆·罗宾斯</a><a rel="v:starring" href="/celebrity/2/"> </a>
<span property="v:genre">剧情</span><span property="v:genre"> 犯罪 </span>
<span property="v:runtime">142分钟</span>
<strong class="ll rating_num"> 9.7 </strong><span property="v:votes">3000000</span>
<span property="v:summary">  line1
line2 </span>
</body></html>"#;

#[test]
fn subject_page_fields_are_read_by_selector() {
    let p = read_subject_page(SUBJECT_HTML, "1292052".to_string(), "https://movie.douban.com/subject/1292052/".to_string());
    assert_eq!(p.id, "1292052");
    assert_eq!(p.title, "肖申克的救赎 The Shawshank Redemption");
    assert_eq!(p.year, Some("1994".to_string()));
    assert_eq!(p.rating_text, Some("9.7".to_string()));
    assert_eq!(p.ratings_count, 3_000_000);
    assert_eq!(p.genres, vec!["剧情".to_string(), "犯罪".to_string()]);
    assert_eq!(p.durations, vec!["142分钟".to_string()]);
    assert_eq!(p.summary, Some("line1 line2".to_string()));
    assert_eq!(p.poster, "https://img/p1.jpg");
    assert_eq!(p.directors.len(), 1);
    assert_eq!(p.directors[0].id, "1047973");
    assert_eq!(p.directors[0].roles, Some(vec!["导演".to_string()]));
    assert_eq!(p.casts.len(), 1);
    assert_eq!(p.casts[0].name, "蒂姆·罗宾斯");
    assert_eq!(p.casts[0].roles, None);
}

#[test]
fn subject_page_falls_back_to_page_title() {
    let p = read_subject_page("<html><head><title>Name (豆瓣)</title></head><body></body></html>", "1".to_string(), "u".to_string());
    assert_eq!(p.title, "Name");
    assert_eq!(p.year, None);
    assert_eq!(p.rating_text, None);
    assert_eq!(p.ratings_count, 0);
    assert_eq!(p.summary, None);
    assert_eq!(p.poster, "");
    assert!(p.directors.is_empty());
}

const COMMENTS_HTML: &str = r#"<html><body>
<div class="mod-hd"><h2>看过 <span>全部 1234 条</span></h2></div>
<div class="comment-item" data-cid="111"><div class="avatar"><a href="/people/u1/"><img src="https://img/u/pido/s_ratio_a.jpg"></a></div>
<div class="comment"><h3><span class="comment-info"><a href="https://www.douban.com/people/u1/"> Alice </a><span class="allstar50 rating" title="力荐"></span><span class="comment-time " title="2024-01-01 10:00:00">2024-01-01</span></span><span class="votes vote-count">12</span></h3><p><span class="short"> Great </span></p></div></div>
<div class="comment-item"><span class="comment-info"><a href="/people/u2/">Bob</a></span><p><span class="short">  </span></p></div>
<div class="comment-item"><span class="comment-info"><a href="/people/u3/">Carl</a><span class="comment-time">  2023-05-05 </span></span><span class="short">ok</span></div>
</body></html>"#;

#[test]
fn comments_page_reads_items_with_text() {
    assert_eq!(comment_item_count(COMMENTS_HTML), 3);
    let tokens = vec!["t0".to_string(), "t1".to_string(), "t2".to_string()];
    let page = read_comments_page(COMMENTS_HTML, None, None, &tokens);
    assert_eq!((page.start, page.count, page.total), (0, 2, 1234));
    assert_eq!(page.comments.len(), 2);
    let a = &page.comments[0];
    assert_eq!(a.id, "111");
    assert_eq!(a.created_at, "2024-01-01 10:00:00");
    assert_eq!(a.content, "Great");
    assert_eq!(a.useful_count, 12);
    assert_eq!(a.star_digits, Some("50".to_string()));
    assert_eq!(a.author.id, "u1");
    assert_eq!(a.author.name, "Alice");
    assert_eq!(a.author.avatar, "https://img/u/m_ratio_a.jpg");
    let c = &page.comments[1];
    assert_eq!(c.id, "sc_t2");
    assert_eq!(c.created_at, "2023-05-05");
    assert_eq!(c.useful_count, 0);
    assert_eq!(c.star_digits, None);
    let page = read_comments_page(COMMENTS_HTML, Some(20), Some(5), &Vec::new());
    assert_eq!((page.start, page.count), (20, 5));
    assert_eq!(page.comments[1].id, "sc_");
}
