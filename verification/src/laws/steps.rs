//! What one step of an intake does with one link.

use crate::cache::{is_clock_millis, young_entries, CacheEntry, Entries};
use crate::embed::{lowercase, Embed, EmbedView, Kind};
use crate::intake::{
    accepts, begin, fresh, step, whole_seconds, Action, ActionView, Event, EventView, Failure,
    HelixReply, HelixView, IntakeView, Notice, Row, StageView,
};
use crate::laws::links::{link_says, platforms_are_asked};
use crate::links::reveal_tags;
use crate::oembed::oembed_address;
use vstd::prelude::*;

verus! {

/// Whole seconds are what is left of milliseconds when less than a second is taken off, on the
/// side of zero.
pub proof fn less_than_a_second_is_lost(millis: int)
    ensures
        millis >= 0 ==> 1000 * whole_seconds(millis) <= millis < 1000 * whole_seconds(millis) + 1000,
        millis <= 0 ==> 1000 * whole_seconds(millis) - 1000 < millis <= 1000 * whole_seconds(millis),
        whole_seconds(-millis) == -whole_seconds(millis),
{
}

/// A row that is put into the database has the time of its message, in whole seconds.
pub proof fn rows_have_the_time(v: IntakeView, entries: Entries, event: EventView)
    ensures
        step(v, entries, event).2 matches ActionView::Insert(row, _) ==> {
            &&& v.timestamp >= 0 ==> 1000 * row.timest <= v.timestamp < 1000 * row.timest + 1000
            &&& v.timestamp <= 0 ==> 1000 * row.timest - 1000 < v.timestamp <= 1000 * row.timest
        },
{
}

/// The time of the message never changes, and a step takes no link but from the front, and at most
/// one.
pub proof fn time_and_links_are_kept(v: IntakeView, entries: Entries, event: EventView)
    ensures
        step(v, entries, event).0.timestamp == v.timestamp,
        step(v, entries, event).0.links == v.links || v.links.len() > 0 && step(
            v,
            entries,
            event,
        ).0.links == v.links.skip(1),
{
}

/// A live stream is stored under its link, platform and channel, with the first title that Twitch
/// told, and it is remembered with the same and with the time of its message in milliseconds: the
/// entry outlives just the cleanings that come less than a minute later.
pub proof fn live_stream_is_stored(
    v: IntakeView,
    entries: Entries,
    embed: EmbedView,
    titles: Seq<Seq<char>>,
)
    requires
        v.stage == StageView::Asked(Kind::Stream, embed),
        titles.len() > 0,
    ensures
        ({
            let (next, after, action) = step(
                v,
                entries,
                EventView::Helix(HelixView::Titles(titles)),
            );
            &&& action matches ActionView::Insert(row, notice) && {
                &&& row.link == embed.link
                &&& row.platform == embed.platform
                &&& row.channel == embed.channel
                &&& row.title == titles[0]
                &&& notice is None
            }
            &&& after.contains_key(embed.link)
            &&& after[embed.link].timestamp == v.timestamp
            &&& after[embed.link].platform == embed.platform
            &&& after[embed.link].channel == embed.channel
            &&& after[embed.link].title == titles[0]
            &&& forall|link: Seq<char>|
                link != embed.link ==> (#[trigger] after.contains_key(link)
                    <==> entries.contains_key(link)) && after[link] == entries[link]
            &&& forall|now: int| #[trigger]
                young_entries(after, now).contains_key(embed.link) <==> now < v.timestamp + 60_000
            &&& next.stage is Ready
            &&& next.links == v.links
        }),
{
}

/// A video or clip that is not remembered is stored under its link, platform and channel, with the
/// first title that Twitch told, and is not remembered.
pub proof fn video_or_clip_is_stored(
    v: IntakeView,
    entries: Entries,
    kind: Kind,
    embed: EmbedView,
    titles: Seq<Seq<char>>,
)
    requires
        v.stage == StageView::Asked(kind, embed),
        kind == Kind::Video || kind == Kind::Clip,
        !entries.contains_key(embed.link),
        titles.len() > 0,
    ensures
        ({
            let (next, after, action) = step(
                v,
                entries,
                EventView::Helix(HelixView::Titles(titles)),
            );
            &&& action matches ActionView::Insert(row, notice) && {
                &&& row.link == embed.link
                &&& row.platform == embed.platform
                &&& row.channel == embed.channel
                &&& row.title == titles[0]
                &&& notice is None
            }
            &&& after == entries
            &&& next.stage is Ready
            &&& next.links == v.links
        }),
{
}

/// A video or clip that is remembered is stored with the title that is remembered, whatever Twitch
/// told.
pub proof fn remembered_video_or_clip_is_stored(
    v: IntakeView,
    entries: Entries,
    kind: Kind,
    embed: EmbedView,
    reply: HelixView,
)
    requires
        v.stage == StageView::Asked(kind, embed),
        kind == Kind::Video || kind == Kind::Clip,
        entries.contains_key(embed.link),
    ensures
        ({
            let (next, after, action) = step(v, entries, EventView::Helix(reply));
            &&& action matches ActionView::Insert(row, notice) && {
                &&& row.link == embed.link
                &&& row.platform == embed.platform
                &&& row.channel == embed.channel
                &&& row.title == entries[embed.link].title
                &&& notice is None
            }
            &&& after == entries
            &&& next.stage is Ready
            &&& next.links == v.links
        }),
{
}

/// What Twitch does not find is passed over: the intake goes on as one that was about to begin with
/// the next link.
pub proof fn what_is_not_found_is_passed_over(
    v: IntakeView,
    entries: Entries,
    kind: Kind,
    embed: EmbedView,
)
    requires
        v.stage == StageView::Asked(kind, embed),
        kind == Kind::Stream || !entries.contains_key(embed.link),
    ensures
        step(v, entries, EventView::Helix(HelixView::Titles(seq![]))) == step(
            IntakeView { stage: StageView::Ready, timestamp: v.timestamp, links: v.links },
            entries,
            EventView::Go,
        ),
{
}

/// What Twitch says nothing about is stored without a title and not remembered, with a notice for
/// the statuses 429 and 503 alone.
pub proof fn refused_is_stored_untitled(
    v: IntakeView,
    entries: Entries,
    kind: Kind,
    embed: EmbedView,
    reply: HelixView,
)
    requires
        v.stage == StageView::Asked(kind, embed),
        kind == Kind::Stream || !entries.contains_key(embed.link),
        reply is Refused || reply is Garbled,
    ensures
        ({
            let (next, after, action) = step(v, entries, EventView::Helix(reply));
            &&& action matches ActionView::Insert(row, notice) && {
                &&& row.link == embed.link
                &&& row.platform == embed.platform
                &&& row.channel == embed.channel
                &&& row.title.len() == 0
                &&& notice == Some(Notice::TooManyRequests) <==> reply == HelixView::Refused(429)
                &&& notice == Some(Notice::ServiceUnavailable) <==> reply == HelixView::Refused(503)
                &&& notice != Some(Notice::RequestFailed)
            }
            &&& after == entries
            &&& next.stage is Ready
            &&& next.links == v.links
        }),
{
}

/// If Twitch cannot be reached a stream is stored without a title, with a notice. A video or clip
/// is so too if the failure has a status, with a notice for 503 alone; else the message is given
/// up. Nothing is remembered.
pub proof fn unreachable_is_stored_or_given_up(
    v: IntakeView,
    entries: Entries,
    kind: Kind,
    embed: EmbedView,
    status: Option<u16>,
)
    requires
        v.stage == StageView::Asked(kind, embed),
        kind == Kind::Stream || !entries.contains_key(embed.link),
    ensures
        ({
            let (next, after, action) = step(
                v,
                entries,
                EventView::Helix(HelixView::Unreachable(status)),
            );
            &&& after == entries
            &&& next.links == v.links
            &&& kind != Kind::Stream && status is None ==> next.stage is Over && action
                == ActionView::Fail(Failure::NoStatus)
            &&& kind == Kind::Stream || status is Some ==> next.stage is Ready && (action matches
                ActionView::Insert(row, notice) && {
                &&& row.link == embed.link
                &&& row.platform == embed.platform
                &&& row.channel == embed.channel
                &&& row.title.len() == 0
                &&& kind == Kind::Stream ==> notice == Some(Notice::RequestFailed)
                &&& kind != Kind::Stream && status == Some(503u16) ==> notice == Some(
                    Notice::ServiceUnavailable,
                )
                &&& kind != Kind::Stream && status != Some(503u16) ==> notice is None
            })
        }),
{
}

/// A request to Twitch that cannot be made is the end of the message.
pub proof fn broken_request_is_given_up(
    v: IntakeView,
    entries: Entries,
    kind: Kind,
    embed: EmbedView,
)
    requires
        v.stage == StageView::Asked(kind, embed),
        kind == Kind::Stream || !entries.contains_key(embed.link),
    ensures
        ({
            let (next, after, action) = step(v, entries, EventView::Helix(HelixView::Broken));
            &&& action == ActionView::Fail(Failure::BrokenRequest)
            &&& after == entries
            &&& next.stage is Over
            &&& next.links == v.links
        }),
{
}

/// If YouTube cannot be reached the video is stored without a title, with a notice, and not
/// remembered.
pub proof fn unreachable_youtube_is_stored_untitled(
    v: IntakeView,
    entries: Entries,
    embed: EmbedView,
)
    requires
        v.stage == StageView::Asked(Kind::Youtube, embed),
    ensures
        ({
            let (next, after, action) = step(v, entries, EventView::OembedUnreachable);
            &&& action matches ActionView::Insert(row, notice) && {
                &&& row.link == embed.link
                &&& row.platform == embed.platform
                &&& row.channel == embed.channel
                &&& row.title.len() == 0
                &&& notice == Some(Notice::RequestFailed)
            }
            &&& after == entries
            &&& next.stage is Ready
            &&& next.links == v.links
        }),
{
}

/// YouTube's answer is read if and only if its status is 200. With any other the video is passed
/// over: the intake goes on as one that was about to begin with the next link.
pub proof fn youtube_is_read_at_200(
    v: IntakeView,
    entries: Entries,
    embed: EmbedView,
    status: u16,
)
    requires
        v.stage == StageView::Asked(Kind::Youtube, embed),
    ensures
        step(v, entries, EventView::OembedStatus(status)).2 is ReadOembed <==> status == 200,
        status == 200 ==> step(v, entries, EventView::OembedStatus(status)).0 == (IntakeView {
            stage: StageView::Reading(embed),
            timestamp: v.timestamp,
            links: v.links,
        }) && step(v, entries, EventView::OembedStatus(status)).1 == entries,
        status != 200 ==> step(v, entries, EventView::OembedStatus(status)) == step(
            IntakeView { stage: StageView::Ready, timestamp: v.timestamp, links: v.links },
            entries,
            EventView::Go,
        ),
{
}

/// A video on YouTube is stored under its link and platform, with the author and the title that
/// YouTube told, and it is remembered with the same and with the time of its message in
/// milliseconds: the entry outlives just the cleanings that come less than a minute later.
pub proof fn youtube_video_is_stored(
    v: IntakeView,
    entries: Entries,
    embed: EmbedView,
    author: Seq<char>,
    title: Seq<char>,
)
    requires
        v.stage == StageView::Reading(embed),
    ensures
        ({
            let (next, after, action) = step(
                v,
                entries,
                EventView::OembedBody(Some((author, title))),
            );
            &&& action matches ActionView::Insert(row, notice) && {
                &&& row.link == embed.link
                &&& row.platform == embed.platform
                &&& row.channel == author
                &&& row.title == title
                &&& notice is None
            }
            &&& after.contains_key(embed.link)
            &&& after[embed.link].timestamp == v.timestamp
            &&& after[embed.link].platform == embed.platform
            &&& after[embed.link].channel == author
            &&& after[embed.link].title == title
            &&& forall|link: Seq<char>|
                link != embed.link ==> (#[trigger] after.contains_key(link)
                    <==> entries.contains_key(link)) && after[link] == entries[link]
            &&& forall|now: int| #[trigger]
                young_entries(after, now).contains_key(embed.link) <==> now < v.timestamp + 60_000
            &&& next.stage is Ready
            &&& next.links == v.links
        }),
{
}

/// An answer of YouTube that is not understood is the end of the message.
pub proof fn bad_youtube_answer_is_given_up(v: IntakeView, entries: Entries, embed: EmbedView)
    requires
        v.stage == StageView::Reading(embed),
    ensures
        ({
            let (next, after, action) = step(v, entries, EventView::OembedBody(None));
            &&& action == ActionView::Fail(Failure::BadOembed)
            &&& after == entries
            &&& next.stage is Over
            &&& next.links == v.links
        }),
{
}

/// Nothing is forgotten in a step, and beginning with a link remembers nothing.
pub proof fn nothing_is_forgotten(
    v: IntakeView,
    entries: Entries,
    event: EventView,
    link: Seq<char>,
)
    ensures
        entries.contains_key(link) ==> step(v, entries, event).1.contains_key(link),
        step(v, entries, EventView::Go).1 == entries,
{
}

/// When the links are at their end the intake is over.
pub proof fn no_links_are_the_end(v: IntakeView, entries: Entries)
    requires
        v.links.len() == 0,
    ensures
        step(v, entries, EventView::Go).2 is Finish,
        step(v, entries, EventView::Go).0.stage is Over,
        step(v, entries, EventView::Go).0.links.len() == 0,
{
}

/// No text with the mark of a tag in it is the host of strims.gg or holds it.
proof fn tag_has_no_host(tag: Seq<char>)
    requires
        tag == "#twitch"@ || tag == "#twitch-vod"@ || tag == "#twitch-clip"@ || tag == "#youtube"@,
    ensures
        !tag.contains('/'),
        !(exists|a: Seq<char>, b: Seq<char>| tag == #[trigger] (a + "strims.gg"@ + b)),
{
    reveal_tags();
    reveal_strlit("strims.gg");
    assert forall|a: Seq<char>, b: Seq<char>| tag != #[trigger] (a + "strims.gg"@ + b) by {
        if tag == a + "strims.gg"@ + b {
            assert((a + "strims.gg"@ + b)[a.len() as int + 6] == "strims.gg"@[6]);
            assert("strims.gg"@[6] == '.');
            assert(tag[a.len() as int + 6] == '.');
            assert(a.len() + 9 <= tag.len());
            assert(false);
        }
    }
}

/// What the tags with a mark are without it.
proof fn tag_without_mark()
    ensures
        "#twitch"@.skip(1) == "twitch"@,
        "#twitch-vod"@.skip(1) == "twitch-vod"@,
        "#twitch-clip"@.skip(1) == "twitch-clip"@,
        "#youtube"@.skip(1) == "youtube"@,
        "twitch"@ != "twitch-vod"@,
        "twitch"@ != "twitch-clip"@,
        "twitch"@ != "youtube"@,
        "twitch-vod"@ != "twitch-clip"@,
        "twitch-vod"@ != "youtube"@,
        "twitch-clip"@ != "youtube"@,
{
    reveal_tags();
    reveal_strlit("twitch");
    reveal_strlit("twitch-vod");
    reveal_strlit("twitch-clip");
    reveal_strlit("youtube");
    assert("#twitch"@.skip(1) =~= "twitch"@);
    assert("#twitch-vod"@.skip(1) =~= "twitch-vod"@);
    assert("#twitch-clip"@.skip(1) =~= "twitch-clip"@);
    assert("#youtube"@.skip(1) =~= "youtube"@);
    assert("twitch"@.len() == 6 && "twitch-vod"@.len() == 10 && "twitch-clip"@.len() == 11
        && "youtube"@.len() == 7);
}

/// A link to a stream is asked about under its name as it was written, unless it is remembered;
/// then it is stored with the title that is remembered. It is stored and remembered in small
/// letters.
pub proof fn stream_is_begun(v: IntakeView, entries: Entries, id: Seq<char>)
    requires
        v.links.len() > 0,
        v.links[0] == "#twitch"@ + seq!['/'] + id,
    ensures
        ({
            let key = "#twitch"@ + seq!['/'] + lowercase(id);
            let (next, after, action) = step(v, entries, EventView::Go);
            &&& begin(v, entries) == (next, action)
            &&& after == entries
            &&& next.links == v.links.skip(1)
            &&& !entries.contains_key(key) ==> action == ActionView::AskStream(id) && next.stage
                == StageView::Asked(
                Kind::Stream,
                EmbedView { link: key, platform: "twitch"@, channel: id },
            )
            &&& entries.contains_key(key) ==> next.stage is Ready && (action matches
                ActionView::Insert(row, notice) && {
                &&& row.link == key
                &&& row.platform == "twitch"@
                &&& row.channel == id
                &&& row.title == entries[key].title
                &&& notice is None
            })
        }),
{
    tag_has_no_host("#twitch"@);
    tag_without_mark();
    link_says("#twitch"@, id);
    platforms_are_asked("twitch"@);
    reveal_tags();
    let link = "#twitch"@ + seq!['/'] + id;
    let key = "#twitch"@ + seq!['/'] + lowercase(id);
    assert(lowercase(link) =~= key);
}

/// A link to a past broadcast is asked about under its id as it was written.
pub proof fn video_is_begun(v: IntakeView, entries: Entries, id: Seq<char>)
    requires
        v.links.len() > 0,
        v.links[0] == "#twitch-vod"@ + seq!['/'] + id,
    ensures
        ({
            let (next, after, action) = step(v, entries, EventView::Go);
            &&& begin(v, entries) == (next, action)
            &&& after == entries
            &&& next.links == v.links.skip(1)
            &&& action == ActionView::AskVideo(id)
            &&& next.stage == StageView::Asked(
                Kind::Video,
                EmbedView {
                    link: "#twitch-vod"@ + seq!['/'] + id,
                    platform: "twitch-vod"@,
                    channel: id,
                },
            )
        }),
{
    tag_has_no_host("#twitch-vod"@);
    tag_without_mark();
    link_says("#twitch-vod"@, id);
    platforms_are_asked("twitch-vod"@);
}

/// A link to a clip is asked about under its id as it was written.
pub proof fn clip_is_begun(v: IntakeView, entries: Entries, id: Seq<char>)
    requires
        v.links.len() > 0,
        v.links[0] == "#twitch-clip"@ + seq!['/'] + id,
    ensures
        ({
            let (next, after, action) = step(v, entries, EventView::Go);
            &&& begin(v, entries) == (next, action)
            &&& after == entries
            &&& next.links == v.links.skip(1)
            &&& action == ActionView::AskClip(id)
            &&& next.stage == StageView::Asked(
                Kind::Clip,
                EmbedView {
                    link: "#twitch-clip"@ + seq!['/'] + id,
                    platform: "twitch-clip"@,
                    channel: id,
                },
            )
        }),
{
    tag_has_no_host("#twitch-clip"@);
    tag_without_mark();
    link_says("#twitch-clip"@, id);
    platforms_are_asked("twitch-clip"@);
}

/// A link to YouTube is asked about at the address for its id, unless it is remembered; then it is
/// stored with the title that is remembered.
pub proof fn youtube_is_begun(v: IntakeView, entries: Entries, id: Seq<char>)
    requires
        v.links.len() > 0,
        v.links[0] == "#youtube"@ + seq!['/'] + id,
    ensures
        ({
            let key = "#youtube"@ + seq!['/'] + id;
            let (next, after, action) = step(v, entries, EventView::Go);
            &&& begin(v, entries) == (next, action)
            &&& after == entries
            &&& next.links == v.links.skip(1)
            &&& !entries.contains_key(key) ==> action == ActionView::AskOembed(oembed_address(id))
                && next.stage == StageView::Asked(
                Kind::Youtube,
                EmbedView { link: key, platform: "youtube"@, channel: id },
            )
            &&& entries.contains_key(key) ==> next.stage is Ready && (action matches
                ActionView::Insert(row, notice) && {
                &&& row.link == key
                &&& row.platform == "youtube"@
                &&& row.channel == id
                &&& row.title == entries[key].title
                &&& notice is None
            })
        }),
{
    tag_has_no_host("#youtube"@);
    tag_without_mark();
    link_says("#youtube"@, id);
    platforms_are_asked("youtube"@);
}

/// A link to strims.gg is stored at once, without a title.
pub proof fn strims_is_begun(v: IntakeView, entries: Entries, id: Seq<char>)
    requires
        v.links.len() > 0,
        v.links[0] == "strims.gg/angelthump"@ + seq!['/'] + id,
    ensures
        ({
            let (next, after, action) = step(v, entries, EventView::Go);
            &&& begin(v, entries) == (next, action)
            &&& after == entries
            &&& next.links == v.links.skip(1)
            &&& next.stage is Ready
            &&& action matches ActionView::Insert(row, notice) && {
                &&& row.link == "strims.gg/angelthump"@ + seq!['/'] + id
                &&& row.platform == "strims.gg"@
                &&& row.channel == "angelthump"@ + seq!['/'] + id
                &&& row.title.len() == 0
                &&& notice is None
            }
        }),
{
    let link = "strims.gg/angelthump"@ + seq!['/'] + id;
    let channel = "angelthump"@ + seq!['/'] + id;
    reveal_tags();
    reveal_strlit("strims.gg");
    reveal_strlit("angelthump");
    assert(link =~= "strims.gg"@ + seq!['/'] + channel);
    assert("strims.gg"@ =~= seq![] + "strims.gg"@ + seq![]);
    link_says("strims.gg"@, channel);
    platforms_are_asked("strims.gg"@);
    reveal_strlit("twitch");
    reveal_strlit("twitch-vod");
    reveal_strlit("twitch-clip");
    reveal_strlit("youtube");
    assert("strims.gg"@[0] == 's');
    assert("twitch"@[0] == 't' && "twitch-vod"@[0] == 't' && "twitch-clip"@[0] == 't'
        && "youtube"@[0] == 'y');
}

/// An intake waits to go on when it is made and after it stored a row, for Twitch if it asked
/// there, for YouTube if it asked there, and for YouTube's answer if it has it read. When it is
/// over it waits for nothing.
pub proof fn events_are_waited_for(v: IntakeView, reply: HelixView, status: u16, body: Option<
    (Seq<char>, Seq<char>),
>)
    ensures
        accepts(v, EventView::Go) <==> v.stage is Ready,
        accepts(v, EventView::Helix(reply)) <==> (v.stage matches StageView::Asked(kind, _) && kind
            != Kind::Youtube),
        accepts(v, EventView::OembedUnreachable) <==> (v.stage matches StageView::Asked(kind, _)
            && kind == Kind::Youtube),
        accepts(v, EventView::OembedStatus(status)) <==> (v.stage matches StageView::Asked(kind, _)
            && kind == Kind::Youtube),
        accepts(v, EventView::OembedBody(body)) <==> v.stage is Reading,
{
}

/// An intake that was just made has all links still to come.
pub proof fn all_links_are_to_come(timestamp: int, links: Seq<Seq<char>>)
    ensures
        fresh(timestamp, links).timestamp == timestamp,
        fresh(timestamp, links).links == links,
        fresh(timestamp, links).stage is Ready,
{
}

/// A cleaning keeps just the entries of links that were posted less than a minute ago, as they
/// are.
pub proof fn cleaning_keeps_the_young(entries: Entries, now: int, link: Seq<char>)
    ensures
        young_entries(entries, now).contains_key(link) <==> entries.contains_key(link) && now
            < entries[link].timestamp + 60_000,
        young_entries(entries, now).contains_key(link) ==> young_entries(entries, now)[link]
            == entries[link],
{
}

/// The age of an entry can be told at every time from a minute after the beginning of time on, as
/// long as a minute before that time is a time that an entry can have.
pub proof fn ages_can_be_told(now: int)
    ensures
        is_clock_millis(now) <==> 0 <= now - 60_000 <= i64::MAX,
{
}

/// What is said of rows, entries and embeds is said of their fields.
pub proof fn contents_are_the_fields(row: Row, entry: CacheEntry, embed: Embed)
    ensures
        row@.timest == row.timest,
        row@.link == row.link@,
        row@.platform == row.platform@,
        row@.channel == row.channel@,
        row@.title == row.title@,
        entry@.timestamp == entry.timestamp,
        entry@.platform == entry.platform@,
        entry@.channel == entry.channel@,
        entry@.title == entry.title@,
        embed@.link == embed.link@,
        embed@.platform == embed.platform@,
        embed@.channel == embed.channel@,
{
}

/// What is said of events is said of what they carry.
pub proof fn events_carry(event: Event)
    ensures
        event is Go <==> event@ is Go,
        event is OembedUnreachable <==> event@ is OembedUnreachable,
        event matches Event::OembedStatus(status) ==> event@ == EventView::OembedStatus(status),
        event matches Event::OembedBody(Some(body)) ==> event@ == EventView::OembedBody(
            Some((body.author_name@, body.title@)),
        ),
        event matches Event::OembedBody(None) ==> event@ == EventView::OembedBody(None),
        event matches Event::Helix(HelixReply::Titles(titles)) ==> (event@ matches EventView::Helix(
            HelixView::Titles(told),
        ) && told.len() == titles@.len() && forall|i: int|
            0 <= i < told.len() ==> #[trigger] told[i] == titles@[i]@),
        event matches Event::Helix(HelixReply::Unreachable(status)) ==> event@ == EventView::Helix(
            HelixView::Unreachable(status),
        ),
        event matches Event::Helix(HelixReply::Refused(status)) ==> event@ == EventView::Helix(
            HelixView::Refused(status),
        ),
        event matches Event::Helix(HelixReply::Garbled) ==> event@ == EventView::Helix(
            HelixView::Garbled,
        ),
        event matches Event::Helix(HelixReply::Broken) ==> event@ == EventView::Helix(
            HelixView::Broken,
        ),
{
}

/// What is said of actions is said of what they carry.
pub proof fn actions_carry(action: Action)
    ensures
        action matches Action::AskStream(login) ==> action@ == ActionView::AskStream(login@),
        action matches Action::AskVideo(id) ==> action@ == ActionView::AskVideo(id@),
        action matches Action::AskClip(id) ==> action@ == ActionView::AskClip(id@),
        action matches Action::AskOembed(url) ==> action@ == ActionView::AskOembed(url@),
        action is ReadOembed <==> action@ is ReadOembed,
        action matches Action::Insert(row, notice) ==> action@ == ActionView::Insert(row@, notice),
        action matches Action::Fail(failure) ==> action@ == ActionView::Fail(failure),
        action is Finish <==> action@ is Finish,
{
}

} // verus!
