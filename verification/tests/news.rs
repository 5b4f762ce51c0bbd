use resume_mainframe::news::{
    relay, NewsFeed, CHANNEL_CAPACITY, KEEP_ALIVE_SECONDS, KEEP_ALIVE_TEXT,
};
use resume_mainframe::status::StatusCode;

#[test]
fn connecting_shows_the_current_headline() {
    let feed = NewsFeed::new("first".to_string());
    assert_eq!(feed.news_feed_handler(), "first");
}

#[test]
fn pushed_headline_greets_the_next_listener() {
    let mut feed = NewsFeed::new("first".to_string());
    let (status, sent) = feed.push_news_handler("second".to_string());
    assert_eq!(status, StatusCode::Success);
    assert_eq!(sent, "second");
    assert_eq!(feed.news_feed_handler(), "second");
}

#[test]
fn missed_headlines_are_not_sent_on() {
    assert_eq!(relay(Ok("news".to_string())), Some("news".to_string()));
    assert_eq!(relay(Err(3)), None);
}

#[test]
fn listeners_old_and_new_agree() {
    let mut feed = NewsFeed::new("start".to_string());
    let mut listener = vec![feed.news_feed_handler()];
    for headline in ["one", "two", "three"] {
        let (_, sent) = feed.push_news_handler(headline.to_string());
        listener.extend(relay(Ok(sent)));
    }
    listener.extend(relay(Err(1)));
    assert_eq!(listener, vec!["start", "one", "two", "three"]);
    assert_eq!(feed.news_feed_handler(), "three");
}

#[test]
fn feed_constants() {
    assert_eq!(CHANNEL_CAPACITY, 16);
    assert_eq!(KEEP_ALIVE_SECONDS, 15);
    assert_eq!(KEEP_ALIVE_TEXT, "keep-alive");
}
