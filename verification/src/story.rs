//! Items of the feed: the story record, the feed categories, and the
//! derived display values (host domain, relative age, request URLs).

use vstd::prelude::*;
use crate::numfmt::{dec_digits, int_str, i64_to_string, u64_to_string};
use crate::text::{before_slash, before_slash_exec, remove_all, remove_all_exec};

verus! {

/// One fully resolved item of the feed, immutable once fetched.
#[derive(Debug)]
pub struct Story {
    pub id: i64,
    pub title: Option<String>,
    pub url: Option<String>,
    pub score: i64,
    pub by: String,
    pub time: i64,
    pub descendant: Option<i64>,
    pub kids: Option<Vec<i64>>,
    pub kind: String,
    pub text: Option<String>,
}

/// The feed categories; exactly one is active at a time.
#[derive(Debug, Clone, Copy, PartialEq, Eq, Structural)]
pub enum StoryType {
    Top,
    New,
    Best,
    Show,
    Ask,
}

/// The host part of a URL: the scheme markers removed, then everything up
/// to the first `'/'`.
pub open spec fn url_domain(url: Seq<char>) -> Seq<char> {
    before_slash(remove_all(remove_all(url, "https://"@), "http://"@))
}

/// The sentinel host shown for a story without an external link.
pub open spec fn home_domain() -> Seq<char> {
    "news.ycombinator.com"@
}

/// The display domain of a story: the host of its URL, or the sentinel
/// when it has no URL or the host comes out empty.
pub open spec fn story_domain(s: Story) -> Seq<char> {
    match s.url {
        Some(u) => if url_domain(u@).len() == 0 {
            home_domain()
        } else {
            url_domain(u@)
        },
        None => home_domain(),
    }
}

/// The relative-age label for a creation time of `time`, read at wall-clock
/// time `now` (both epoch seconds): seconds under a minute, then whole
/// minutes, hours, and days.
pub open spec fn age_text(time: int, now: int) -> Seq<char> {
    let s = now - time;
    if s < 0 {
        seq!['-'] + dec_digits((-s) as nat) + "s ago"@
    } else if s < 60 {
        dec_digits(s as nat) + "s ago"@
    } else if s < 3600 {
        dec_digits((s / 60) as nat) + "m ago"@
    } else if s < 86400 {
        dec_digits((s / 3600) as nat) + "h ago"@
    } else {
        dec_digits((s / 86400) as nat) + "d ago"@
    }
}

impl Story {
    /// The display domain of this story, as `story_domain` states.
    pub fn domain(&self) -> (r: String)
        ensures
            r@ == story_domain(*self),
    {
        proof {
            reveal_strlit("https://");
            reveal_strlit("http://");
        }
        match &self.url {
            Some(u) => {
                let no_https = remove_all_exec(u.as_str(), "https://");
                let stripped = remove_all_exec(no_https.as_str(), "http://");
                let host = before_slash_exec(stripped.as_str());
                if host.as_str().unicode_len() == 0 {
                    String::from_str("news.ycombinator.com")
                } else {
                    host
                }
            },
            None => String::from_str("news.ycombinator.com"),
        }
    }

    /// The relative-age label of this story against the wall clock now.
    /// Whatever instant the clock reports, the label is exactly
    /// `age_text` of the story's creation time and that instant.
    pub fn time_ago(&self) -> (r: String)
        ensures
            exists|now: int| r@ == age_text(self.time as int, now),
    {
        let now = now_epoch_seconds();
        let r = age_label(self.time, now);
        proof {
            assert(r@ == age_text(self.time as int, now as int));
        }
        r
    }
}

/// Relies on chrono's `Utc::now`: the current wall-clock time, which this
/// library reads only as whole seconds since the Unix epoch. Like the
/// chrono call itself, it expects a system clock at or after the epoch.
#[verifier::external_body]
fn now_epoch_seconds() -> (r: i64) {
    chrono::Utc::now().timestamp()
}

/// The relative-age label for a creation time read at clock time `now`,
/// as `age_text` states.
pub fn age_label(time: i64, now: i64) -> (r: String)
    ensures
        r@ == age_text(time as int, now as int),
{
    proof {
        reveal_strlit("s ago");
        reveal_strlit("m ago");
        reveal_strlit("h ago");
        reveal_strlit("d ago");
    }
    let seconds: i128 = now as i128 - time as i128;
    if seconds < 0 {
        let mut r = i64_to_string_wide(seconds);
        r.append("s ago");
        proof {
            assert(r@ =~= age_text(time as int, now as int));
        }
        r
    } else if seconds < 60 {
        let mut r = u64_to_string(seconds as u64);
        r.append("s ago");
        proof {
            assert(r@ =~= age_text(time as int, now as int));
        }
        r
    } else if seconds < 3600 {
        let mut r = u64_to_string((seconds / 60) as u64);
        r.append("m ago");
        proof {
            assert(r@ =~= age_text(time as int, now as int));
        }
        r
    } else if seconds < 86400 {
        let mut r = u64_to_string((seconds / 3600) as u64);
        r.append("h ago");
        proof {
            assert(r@ =~= age_text(time as int, now as int));
        }
        r
    } else {
        let mut r = u64_to_string((seconds / 86400) as u64);
        r.append("d ago");
        proof {
            assert(r@ =~= age_text(time as int, now as int));
        }
        r
    }
}

/// The decimal string of a difference of two 64-bit values.
fn i64_to_string_wide(x: i128) -> (r: String)
    requires
        -0xffff_ffff_ffff_ffff <= x <= 0xffff_ffff_ffff_ffff,
    ensures
        r@ == int_str(x as int),
{
    if x < 0 {
        let mag: u64 = (-x) as u64;
        let mut out = String::new();
        proof {
            reveal_strlit("-");
        }
        out.append("-");
        let digits = u64_to_string(mag);
        out.append(digits.as_str());
        proof {
            assert("-"@ =~= seq!['-']);
            assert(out@ =~= int_str(x as int));
        }
        out
    } else {
        u64_to_string(x as u64)
    }
}

impl StoryType {
    /// The remote endpoint that lists this category's identifiers.
    pub fn url(&self) -> (r: String)
        ensures
            r@ == self.url_spec(),
    {
        match self {
            StoryType::Top => String::from_str(
                "https://hacker-news.firebaseio.com/v0/topstories.json",
            ),
            StoryType::New => String::from_str(
                "https://hacker-news.firebaseio.com/v0/newstories.json",
            ),
            StoryType::Best => String::from_str(
                "https://hacker-news.firebaseio.com/v0/beststories.json",
            ),
            StoryType::Show => String::from_str(
                "https://hacker-news.firebaseio.com/v0/showstories.json",
            ),
            StoryType::Ask => String::from_str(
                "https://hacker-news.firebaseio.com/v0/askstories.json",
            ),
        }
    }

    /// The endpoint each category's identifier list is read from.
    pub open spec fn url_spec(self) -> Seq<char> {
        match self {
            StoryType::Top => "https://hacker-news.firebaseio.com/v0/topstories.json"@,
            StoryType::New => "https://hacker-news.firebaseio.com/v0/newstories.json"@,
            StoryType::Best => "https://hacker-news.firebaseio.com/v0/beststories.json"@,
            StoryType::Show => "https://hacker-news.firebaseio.com/v0/showstories.json"@,
            StoryType::Ask => "https://hacker-news.firebaseio.com/v0/askstories.json"@,
        }
    }
}

/// The endpoint a single item is read from, for a given identifier.
pub open spec fn item_url_spec(id: int) -> Seq<char> {
    "https://hacker-news.firebaseio.com/v0/item/"@ + int_str(id) + ".json"@
}

/// The remote endpoint for one item, as `item_url_spec` states.
pub fn item_url(id: i64) -> (r: String)
    ensures
        r@ == item_url_spec(id as int),
{
    let mut r = String::from_str("https://hacker-news.firebaseio.com/v0/item/");
    let digits = i64_to_string(id);
    r.append(digits.as_str());
    r.append(".json");
    proof {
        assert(r@ =~= item_url_spec(id as int));
    }
    r
}

} // verus!
