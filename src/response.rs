use vstd::prelude::*;

use crate::decimal::{decimal, render_decimal};

verus! {

/// The statistics part of a list, as the provider reports it.
pub struct ListStats {
    /// The number of active members, when the provider gives it.
    pub member_count: Option<u64>,
}

/// What a successful list-info read returns, as far as this service reads it.
pub struct ListInfo {
    /// The list's statistics; a well-behaved provider always sends them.
    pub stats: Option<ListStats>,
}

/// One display unit of the dashboard widget.
pub struct Frame {
    pub icon: String,
    pub text: String,
}

/// The reply to the stats endpoint: an HTTP status and the frames of the body.
pub struct Response {
    pub status: u16,
    pub frames: Vec<Frame>,
}

/// The HTTP status of every reply: failures are reported inside the body.
pub const STATUS_OK: u16 = 200;

/// Icon shown beside a member count.
pub open spec fn count_icon() -> Seq<char> {
    "i29438"@
}

/// Icon shown beside a notice or an error.
pub open spec fn notice_icon() -> Seq<char> {
    "i619"@
}

/// Text shown when the statistics hold no member count.
pub open spec fn no_stats_text() -> Seq<char> {
    "No stats"@
}

/// The phrase that starts every error text.
pub open spec fn error_prefix() -> Seq<char> {
    "Error getting Mailchimp list info: "@
}

/// The detail reported when a successful read carries no statistics at all.
pub open spec fn missing_stats_detail() -> Seq<char> {
    "No stats returned"@
}

/// The text of an error frame for the rendered upstream error `detail`.
pub open spec fn error_text(detail: Seq<char>) -> Seq<char> {
    error_prefix() + detail
}

/// The icon and text of the frame owed for an upstream outcome; an error is
/// given as its rendered text.
pub open spec fn frame_of(outcome: Result<ListInfo, String>) -> (Seq<char>, Seq<char>) {
    match outcome {
        Ok(info) => match info.stats {
            Some(stats) => match stats.member_count {
                Some(n) => (count_icon(), decimal(n as nat)),
                None => (notice_icon(), no_stats_text()),
            },
            None => (notice_icon(), error_text(missing_stats_detail())),
        },
        Err(e) => (notice_icon(), error_text(e@)),
    }
}

/// Whether `r` is the reply owed for `outcome`: status 200 and exactly the
/// one frame that `frame_of` gives.
pub open spec fn is_reply_for(r: Response, outcome: Result<ListInfo, String>) -> bool {
    &&& r.status == 200
    &&& r.frames@.len() == 1
    &&& (r.frames@[0].icon@, r.frames@[0].text@) == frame_of(outcome)
}

/// The frame that reports an upstream error, given its rendered text.
pub fn error_frame(detail: &str) -> (r: Frame)
    ensures
        r.icon@ == notice_icon(),
        r.text@ == error_text(detail@),
{
    let text = String::from_str("Error getting Mailchimp list info: ").concat(detail);
    Frame { icon: String::from_str("i619"), text }
}

/// The frame for the statistics of a successful read.
pub fn stats_frame(stats: &ListStats) -> (r: Frame)
    ensures
        (r.icon@, r.text@) == frame_of(Ok(ListInfo { stats: Some(*stats) })),
{
    match stats.member_count {
        Some(n) => Frame { icon: String::from_str("i29438"), text: render_decimal(n) },
        None => Frame { icon: String::from_str("i619"), text: String::from_str("No stats") },
    }
}

/// The frame for an upstream outcome.
pub fn frame_for(outcome: &Result<ListInfo, String>) -> (r: Frame)
    ensures
        (r.icon@, r.text@) == frame_of(*outcome),
{
    match outcome {
        Ok(info) => match &info.stats {
            Some(stats) => stats_frame(stats),
            None => error_frame("No stats returned"),
        },
        Err(e) => error_frame(e.as_str()),
    }
}

/// Answers the stats endpoint for the outcome of the upstream list-info read.
pub fn get_subscribers(outcome: &Result<ListInfo, String>) -> (r: Response)
    ensures
        is_reply_for(r, *outcome),
{
    let frame = frame_for(outcome);
    let mut frames: Vec<Frame> = Vec::new();
    frames.push(frame);
    Response { status: STATUS_OK, frames }
}

} // verus!

verus! {

/// Whether an upstream outcome is a failure: the read failed, or it succeeded
/// without the statistics that every list carries.
pub open spec fn is_failure(outcome: Result<ListInfo, String>) -> bool {
    match outcome {
        Ok(info) => info.stats is None,
        Err(_) => true,
    }
}

/// Every reply has status 200 and exactly one frame, whatever the outcome.
pub proof fn lemma_reply_shape(r: Response, outcome: Result<ListInfo, String>)
    requires
        is_reply_for(r, outcome),
    ensures
        r.status == 200,
        r.frames@.len() == 1,
{
}

/// A read that reports `n` members is answered with the count icon and the
/// decimal text of `n`, which is a non-empty run of digits.
pub proof fn lemma_count_reply(r: Response, n: u64)
    requires
        is_reply_for(r, Ok(ListInfo { stats: Some(ListStats { member_count: Some(n) }) })),
    ensures
        r.status == 200,
        r.frames@.len() == 1,
        r.frames@[0].icon@ == "i29438"@,
        r.frames@[0].text@ == decimal(n as nat),
        r.frames@[0].text@.len() >= 1,
        forall|i: int|
            0 <= i < r.frames@[0].text@.len() ==> '0' <= #[trigger] r.frames@[0].text@[i] <= '9',
{
    crate::decimal::lemma_decimal_is_digits(n as nat);
}

/// A read whose statistics hold no member count is answered with the notice
/// icon and the text "No stats".
pub proof fn lemma_no_stats_reply(r: Response)
    requires
        is_reply_for(r, Ok(ListInfo { stats: Some(ListStats { member_count: None }) })),
    ensures
        r.status == 200,
        r.frames@.len() == 1,
        r.frames@[0].icon@ == "i619"@,
        r.frames@[0].text@ == "No stats"@,
{
}

/// A failed read is answered with the notice icon and a text that starts with
/// "Error getting Mailchimp list info:", so it is never empty.
pub proof fn lemma_failure_reply(r: Response, outcome: Result<ListInfo, String>)
    requires
        is_reply_for(r, outcome),
        is_failure(outcome),
    ensures
        r.status == 200,
        r.frames@.len() == 1,
        r.frames@[0].icon@ == "i619"@,
        r.frames@[0].text@.len() > 0,
        r.frames@[0].text@.len() >= "Error getting Mailchimp list info:"@.len(),
        r.frames@[0].text@.subrange(0, "Error getting Mailchimp list info:"@.len() as int)
            == "Error getting Mailchimp list info:"@,
{
    reveal_strlit("Error getting Mailchimp list info: ");
    reveal_strlit("Error getting Mailchimp list info:");
    let t = r.frames@[0].text@;
    let phrase = "Error getting Mailchimp list info:"@;
    assert(t.subrange(0, phrase.len() as int) =~= phrase);
}

} // verus!
