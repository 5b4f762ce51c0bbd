//! The news in the header of the page.
//!
//! There is one headline at a time. Whoever connects gets it at once, and then
//! every headline that is pushed while connected.
use vstd::prelude::*;

use crate::status::StatusCode;

verus! {

/// How many headlines may wait for a slow listener before it misses some.
pub const CHANNEL_CAPACITY: usize = 16;

/// How often a silent connection is kept alive, in seconds.
pub const KEEP_ALIVE_SECONDS: u64 = 15;

/// What a silent connection is kept alive with.
pub const KEEP_ALIVE_TEXT: &'static str = "keep-alive";

/// The current headline.
pub struct NewsFeed {
    headline: String,
}

impl View for NewsFeed {
    type V = Seq<char>;

    closed spec fn view(&self) -> Seq<char> {
        self.headline@
    }
}

/// What is sent on for something received: a headline, but not that some were
/// missed.
pub open spec fn sent_on(received: Result<Seq<char>, u64>) -> Option<Seq<char>> {
    match received {
        Ok(headline) => Some(headline),
        Err(_) => None,
    }
}

/// What a listener is sent: the headline at the time of connecting, and then what
/// was received since.
pub open spec fn stream(headline: Seq<char>, received: Seq<Result<Seq<char>, u64>>) -> Seq<
    Seq<char>,
> {
    seq![headline] + received.filter_map(|item: Result<Seq<char>, u64>| sent_on(item))
}

/// What is received: a headline, or how many were missed.
pub open spec fn received_text(received: Result<String, u64>) -> Result<Seq<char>, u64> {
    match received {
        Ok(headline) => Ok(headline@),
        Err(missed) => Err(missed),
    }
}

/// What is sent on for something received.
pub fn relay(received: Result<String, u64>) -> (headline: Option<String>)
    ensures
        match headline {
            Some(headline) => sent_on(received_text(received)) == Some(headline@),
            None => sent_on(received_text(received)) is None,
        },
        received matches Ok(text) ==> headline == Some(text),
        received is Err ==> headline is None,
{
    match received {
        Ok(headline) => Some(headline),
        Err(_) => None,
    }
}

impl NewsFeed {
    /// A feed with its first headline.
    pub fn new(headline: String) -> (feed: Self)
        ensures
            feed@ == headline@,
    {
        NewsFeed { headline }
    }

    /// What a listener is sent first on connecting: the current headline.
    pub fn news_feed_handler(&self) -> (headline: String)
        ensures
            headline@ == self@,
    {
        self.headline.clone()
    }

    /// Takes in a new headline, and gives it back to be sent to all that are
    /// connected. The reply succeeds, whether anyone is connected or not.
    pub fn push_news_handler(&mut self, payload: String) -> (reply: (StatusCode, String))
        ensures
            final(self)@ == payload@,
            reply.0 == StatusCode::Success,
            reply.1@ == payload@,
    {
        self.headline = payload.clone();
        (StatusCode::Success, payload)
    }
}

/// The current headline after some were pushed: the last of them.
pub open spec fn headline_after(headline: Seq<char>, pushed: Seq<Seq<char>>) -> Seq<char> {
    if pushed.len() == 0 {
        headline
    } else {
        pushed.last()
    }
}

/// Whoever connects after pushes sees the last headline pushed first, and whoever was
/// connected all along and missed nothing ends with the same headline.
pub proof fn listeners_agree(headline: Seq<char>, pushed: Seq<Seq<char>>)
    ensures
        stream(headline_after(headline, pushed), Seq::empty()).first() == stream(
            headline,
            pushed.map_values(|item: Seq<char>| Ok::<Seq<char>, u64>(item)),
        ).last(),
{
    let received = pushed.map_values(|item: Seq<char>| Ok::<Seq<char>, u64>(item));
    everything_is_sent_on(headline, pushed);
    assert(stream(headline, received) =~= seq![headline] + pushed);
    let nothing: Seq<Result<Seq<char>, u64>> = Seq::empty();
    reveal(Seq::filter_map);
    let current = headline_after(headline, pushed);
    assert(stream(current, nothing)[0] == current);
}

/// A listener that misses nothing is sent the headline at the time of connecting,
/// and then every headline pushed since, in order.
pub proof fn everything_is_sent_on(headline: Seq<char>, pushed: Seq<Seq<char>>)
    ensures
        stream(headline, pushed.map_values(|item: Seq<char>| Ok::<Seq<char>, u64>(item))) == seq![
            headline,
        ] + pushed,
    decreases pushed.len(),
{
    reveal(Seq::filter_map);
    let ok = |item: Seq<char>| Ok::<Seq<char>, u64>(item);
    let keep = |item: Result<Seq<char>, u64>| sent_on(item);
    let received = pushed.map_values(ok);
    if pushed.len() > 0 {
        let earlier = pushed.drop_last();
        everything_is_sent_on(headline, earlier);
        assert(received.drop_last() =~= earlier.map_values(ok));
        assert(earlier.map_values(ok).filter_map(keep) =~= earlier) by {
            let a = earlier.map_values(ok).filter_map(keep);
            assert((seq![headline] + a).skip(1) =~= a);
            assert((seq![headline] + earlier).skip(1) =~= earlier);
        }
        assert(received.filter_map(keep) =~= earlier.push(pushed.last()));
        assert(earlier.push(pushed.last()) =~= pushed);
    } else {
        assert(received =~= Seq::empty());
        assert(received.filter_map(keep) =~= pushed);
    }
}

/// A listener is sent each headline when it is received, unchanged and after all that
/// came before it; nothing is sent where headlines were missed.
pub proof fn headlines_are_sent_on_at_once(
    headline: Seq<char>,
    received: Seq<Result<Seq<char>, u64>>,
    next: Seq<char>,
    missed: u64,
)
    ensures
        stream(headline, received.push(Ok(next))) == stream(headline, received).push(next),
        stream(headline, received.push(Err(missed))) == stream(headline, received),
        stream(headline, Seq::empty()) == seq![headline],
{
    reveal(Seq::filter_map);
    let nothing: Seq<Result<Seq<char>, u64>> = Seq::empty();
    let got: Result<Seq<char>, u64> = Ok(next);
    let gap: Result<Seq<char>, u64> = Err(missed);
    assert(received.push(got).drop_last() =~= received);
    assert(received.push(gap).drop_last() =~= received);
    assert(stream(headline, received.push(got)) =~= stream(headline, received).push(next));
    assert(stream(headline, received.push(gap)) =~= stream(headline, received));
    assert(stream(headline, nothing) =~= seq![headline]);
}

/// The current headline is the one pushed last, and the first one until then.
pub proof fn last_push_is_current(
    headline: Seq<char>,
    pushed: Seq<Seq<char>>,
    next: Seq<char>,
)
    ensures
        headline_after(headline, pushed.push(next)) == next,
        headline_after(headline, Seq::empty()) == headline,
{
}

} // verus!
