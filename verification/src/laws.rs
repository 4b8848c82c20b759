//! What holds of the library as a whole, over many steps.

pub mod links;
pub mod session;
pub mod steps;
pub mod supervise;

use crate::cache::{young_entries, Entries, EntryView};
use crate::embed::{
    embed_of, kind_of, lowercase, platform_of, stored_link_is_read, EmbedView, Kind,
};
use crate::intake::{
    accepts, begin, fresh, is_looked_up, keyed_embed, outcome, step, whole_seconds, ActionView,
    EventView, HelixView, IntakeView, RowView, StageView,
};
use crate::links::{is_id, is_id_char, is_stored_link, is_tag, link_text, reveal_tags, stored_tag};
use crate::session::{
    dispatch, session_step, FrameView, SessionActionView, SessionEventView, SessionFailure,
    SessionView,
};
use crate::supervise::longer;
use vstd::arithmetic::power2::{lemma2_to64, lemma_pow2_unfold, pow2};
use vstd::prelude::*;

verus! {

/// A turn of an intake: what the cache holds at it, and the event. Between two turns the cache
/// may change in any way.
pub struct Turn {
    pub entries: Entries,
    pub event: EventView,
}

/// The state of an intake after its turns, and what it told to do at each of them.
pub open spec fn run(v: IntakeView, turns: Seq<Turn>) -> (IntakeView, Seq<ActionView>)
    decreases turns.len(),
{
    if turns.len() == 0 {
        (v, seq![])
    } else {
        let (u, actions) = run(v, turns.drop_last());
        let (w, _, action) = step(u, turns.last().entries, turns.last().event);
        (w, actions.push(action))
    }
}

/// At every turn the event is what the intake waits for.
pub open spec fn allowed(v: IntakeView, turns: Seq<Turn>) -> bool
    decreases turns.len(),
{
    turns.len() > 0 ==> allowed(v, turns.drop_last()) && accepts(
        run(v, turns.drop_last()).0,
        turns.last().event,
    )
}

/// The rows that are put into the database.
pub open spec fn rows(actions: Seq<ActionView>) -> Seq<RowView>
    decreases actions.len(),
{
    if actions.len() == 0 {
        seq![]
    } else {
        match actions.last() {
            ActionView::Insert(row, _) => rows(actions.drop_last()).push(row),
            _ => rows(actions.drop_last()),
        }
    }
}

/// At how many turns a link is passed over.
pub open spec fn skips(v: IntakeView, turns: Seq<Turn>) -> nat
    decreases turns.len(),
{
    if turns.len() == 0 {
        0
    } else {
        let u = run(v, turns.drop_last()).0;
        let turn = turns.last();
        skips(v, turns.drop_last()) + if !(turn.event is Go) && outcome(u, turn.entries, turn.event)
            is Skip {
            1nat
        } else {
            0nat
        }
    }
}

/// Where the rows come from: for each of them the number of its link, and the turn at which it is
/// told to put it into the database.
pub open spec fn origins(v: IntakeView, turns: Seq<Turn>) -> Seq<(int, Turn)>
    decreases turns.len(),
{
    if turns.len() == 0 {
        seq![]
    } else {
        let (w, actions) = run(v, turns);
        let earlier = origins(v, turns.drop_last());
        if actions.last() is Insert {
            earlier.push((v.links.len() - w.links.len() - 1, turns.last()))
        } else {
            earlier
        }
    }
}

/// The title with which a link is stored at a turn: none if its platform is not asked or the
/// service did not tell; else what the service told, or what is remembered.
pub open spec fn title_at(link: Seq<char>, turn: Turn) -> Seq<char> {
    let embed = keyed_embed(link);
    let kind = kind_of(embed.platform);
    let remembered = turn.entries[embed.link].title;
    if kind == Kind::Unasked {
        seq![]
    } else {
        match turn.event {
            EventView::OembedBody(Some((_, title))) => title,
            EventView::OembedBody(None) => seq![],
            EventView::OembedUnreachable => seq![],
            EventView::Helix(reply) => if !is_looked_up(kind) && turn.entries.contains_key(
                embed.link,
            ) {
                remembered
            } else {
                match reply {
                    HelixView::Titles(titles) => if titles.len() > 0 {
                        titles[0]
                    } else {
                        remembered
                    },
                    _ => seq![],
                }
            },
            _ => remembered,
        }
    }
}

/// The channel with which a link is stored at a turn: the author if YouTube's answer was read, and
/// else the channel that the link says.
pub open spec fn channel_at(link: Seq<char>, turn: Turn) -> Seq<char> {
    match turn.event {
        EventView::OembedBody(Some((author, _))) => author,
        _ => keyed_embed(link).channel,
    }
}

/// The row that is stored for a link of a message at a turn.
pub open spec fn row_at(timestamp: int, link: Seq<char>, turn: Turn) -> RowView {
    RowView {
        timest: whole_seconds(timestamp),
        link: keyed_embed(link).link,
        platform: keyed_embed(link).platform,
        channel: channel_at(link, turn),
        title: title_at(link, turn),
    }
}

/// How many links an intake has taken and not yet stored or passed over.
pub open spec fn pending(stage: StageView) -> nat {
    if stage is Asked || stage is Reading {
        1
    } else {
        0
    }
}

/// What an intake waits for is about this link.
spec fn waits_for(stage: StageView, link: Seq<char>) -> bool {
    match stage {
        StageView::Asked(kind, embed) => embed == keyed_embed(link) && kind == kind_of(
            embed.platform,
        ) && kind != Kind::Unasked,
        StageView::Reading(embed) => embed == keyed_embed(link) && kind_of(embed.platform)
            == Kind::Youtube,
        _ => true,
    }
}

/// What a run keeps at every turn.
spec fn run_invariant(timestamp: int, links: Seq<Seq<char>>, turns: Seq<Turn>) -> bool {
    let start = fresh(timestamp, links);
    let (w, actions) = run(start, turns);
    let taken = links.len() - w.links.len();
    let settled = taken - pending(w.stage);
    let from = origins(start, turns);
    &&& w.timestamp == timestamp
    &&& 0 <= settled
    &&& w.links == links.skip(taken)
    &&& actions.len() == turns.len()
    &&& pending(w.stage) == 1 ==> waits_for(w.stage, links[taken - 1])
    &&& from.len() == rows(actions).len()
    &&& forall|a: int, b: int| 0 <= a < b < from.len() ==> from[a].0 < from[b].0
    &&& forall|k: int|
        0 <= k < from.len() ==> 0 <= (#[trigger] from[k]).0 < settled && rows(actions)[k] == row_at(
            timestamp,
            links[from[k].0],
            from[k].1,
        )
    &&& !(w.stage is Over) ==> rows(actions).len() + skips(start, turns) == settled
    &&& actions.len() > 0 && actions.last() is Finish ==> w.links.len() == 0 && rows(actions).len()
        + skips(start, turns) == links.len()
}

/// What a row looks like that a step tells to put into the database: it is that of the next link
/// if the intake goes on with it, and else that of the link that the intake waits for.
proof fn stored_row(v: IntakeView, turn: Turn, link: Seq<char>)
    requires
        accepts(v, turn.event),
        waits_for(v.stage, link),
    ensures
        ({
            let (w, _, action) = step(v, turn.entries, turn.event);
            let goes_on = turn.event is Go || outcome(v, turn.entries, turn.event) is Skip;
            &&& action is Insert && goes_on ==> v.links.len() > 0 && w.links == v.links.skip(1)
                && action->Insert_0 == row_at(v.timestamp, v.links[0], turn)
            &&& action is Insert && !goes_on ==> w.links == v.links && action->Insert_0 == row_at(
                v.timestamp,
                link,
                turn,
            )
        }),
{
}

proof fn run_keeps_invariant(timestamp: int, links: Seq<Seq<char>>, turns: Seq<Turn>)
    requires
        allowed(fresh(timestamp, links), turns),
    ensures
        run_invariant(timestamp, links, turns),
    decreases turns.len(),
{
    let start = fresh(timestamp, links);
    if turns.len() == 0 {
        assert(links.skip(0) =~= links);
    } else {
        let before = turns.drop_last();
        let turn = turns.last();
        run_keeps_invariant(timestamp, links, before);
        let (u, told) = run(start, before);
        let (w, actions) = run(start, turns);
        let taken = links.len() - u.links.len();
        let action = actions.last();
        assert(actions.drop_last() =~= told);
        if u.links.len() > 0 {
            assert(u.links[0] == links[taken]);
            assert(u.links.skip(1) =~= links.skip(taken + 1));
        }
        if pending(u.stage) == 1 {
            stored_row(u, turn, links[taken - 1]);
        } else {
            stored_row(u, turn, seq![]);
        }
    }
}

/// The rows that a message puts into the database are rows of its links, in their order and none
/// of them twice. Each is that of its link, with the time of the message, the channel that the
/// link says or the author that YouTube told, and the title that was told or remembered. When all
/// links were dealt with, each of them was either stored or passed over. This holds whatever the
/// services answer and whatever is done to the cache meanwhile.
pub proof fn rows_follow_links(timestamp: int, links: Seq<Seq<char>>, turns: Seq<Turn>)
    requires
        allowed(fresh(timestamp, links), turns),
    ensures
        ({
            let start = fresh(timestamp, links);
            let (w, actions) = run(start, turns);
            let taken = links.len() - w.links.len();
            let from = origins(start, turns);
            &&& w.links == links.skip(taken)
            &&& from.len() == rows(actions).len()
            &&& forall|a: int, b: int| 0 <= a < b < from.len() ==> from[a].0 < from[b].0
            &&& forall|k: int|
                0 <= k < from.len() ==> 0 <= (#[trigger] from[k]).0 < taken && rows(actions)[k]
                    == row_at(timestamp, links[from[k].0], from[k].1)
            &&& actions.len() > 0 && actions.last() is Finish ==> taken == links.len() && rows(
                actions,
            ).len() + skips(start, turns) == links.len()
        }),
{
    run_keeps_invariant(timestamp, links, turns);
}

/// How many turns an intake can still have at most.
pub open spec fn turns_left(v: IntakeView) -> nat {
    match v.stage {
        StageView::Ready => 3 * v.links.len() + 1,
        StageView::Asked(_, _) => 3 * v.links.len() + 3,
        StageView::Reading(_) => 3 * v.links.len() + 2,
        StageView::Over => 0,
    }
}

/// An intake comes to an end: it has at most three turns for each link and one more.
pub proof fn intake_comes_to_an_end(v: IntakeView, turns: Seq<Turn>)
    requires
        allowed(v, turns),
    ensures
        turns.len() + turns_left(run(v, turns).0) <= turns_left(v),
    decreases turns.len(),
{
    if turns.len() > 0 {
        intake_comes_to_an_end(v, turns.drop_last());
    }
}

/// What is remembered is not asked for: the link is stored at once, with the title that is
/// remembered.
pub proof fn what_is_remembered_is_not_asked(v: IntakeView, entries: Entries)
    requires
        v.links.len() > 0,
        is_looked_up(kind_of(keyed_embed(v.links[0]).platform)),
        entries.contains_key(keyed_embed(v.links[0]).link),
    ensures
        begin(v, entries).1 == ActionView::Insert(
            RowView {
                timest: whole_seconds(v.timestamp),
                link: keyed_embed(v.links[0]).link,
                platform: keyed_embed(v.links[0]).platform,
                channel: keyed_embed(v.links[0]).channel,
                title: entries[keyed_embed(v.links[0]).link].title,
            },
            None,
        ),
{
}

/// The small letters of an id are an id.
proof fn small_id(id: Seq<char>)
    requires
        is_id(id),
    ensures
        is_id(lowercase(id)),
        lowercase(link_text("#twitch"@, id)) == link_text("#twitch"@, lowercase(id)),
{
    reveal_tags();
    assert forall|i: int| 0 <= i < id.len() implies is_id_char(#[trigger] lowercase(id)[i]) by {
        assert(is_id_char(id[i]));
    }
    assert(lowercase(link_text("#twitch"@, id)) =~= link_text("#twitch"@, lowercase(id)));
}

/// The platform of an embed can be read from the link as which it is stored.
pub proof fn keyed_platform(link: Seq<char>)
    requires
        is_stored_link(link),
    ensures
        is_stored_link(keyed_embed(link).link),
        platform_of(keyed_embed(link).link) == keyed_embed(link).platform,
{
    let (tag, id) = choose|tag: Seq<char>, id: Seq<char>|
        is_tag(tag) && is_id(id) && link == #[trigger] link_text(stored_tag(tag), id);
    reveal_tags();
    stored_link_is_read(tag, id);
    if tag == "#twitch"@ {
        small_id(id);
        stored_link_is_read(tag, lowercase(id));
        assert(stored_tag(tag) == tag);
        assert(is_stored_link(link_text(stored_tag(tag), lowercase(id))));
    } else {
        reveal_strlit("twitch");
        reveal_strlit("twitch-vod");
        reveal_strlit("twitch-clip");
        reveal_strlit("youtube");
        assert("twitch"@.len() == 6 && "twitch-vod"@.len() == 10 && "twitch-clip"@.len() == 11
            && "youtube"@.len() == 7);
        assert(kind_of(embed_of(link).platform) != Kind::Stream);
    }
}

/// Only streams and YouTube videos are remembered.
pub open spec fn remembers_looked_up(entries: Entries) -> bool {
    forall|link: Seq<char>| #[trigger]
        entries.contains_key(link) ==> is_looked_up(kind_of(platform_of(link)))
}

/// What an intake waits for is about a link as it is stored, and asked for by its platform.
pub open spec fn is_sound(v: IntakeView) -> bool {
    &&& forall|i: int| 0 <= i < v.links.len() ==> is_stored_link(#[trigger] v.links[i])
    &&& match v.stage {
        StageView::Asked(kind, embed) => kind == kind_of(embed.platform) && platform_of(embed.link)
            == embed.platform,
        StageView::Reading(embed) => kind_of(embed.platform) == Kind::Youtube && platform_of(
            embed.link,
        ) == embed.platform,
        _ => true,
    }
}

/// At first it is so: a fresh intake of stored links is sound, and nothing is remembered.
pub proof fn fresh_is_sound(timestamp: int, links: Seq<Seq<char>>)
    requires
        forall|i: int| 0 <= i < links.len() ==> is_stored_link(#[trigger] links[i]),
    ensures
        is_sound(fresh(timestamp, links)),
        remembers_looked_up(Map::empty()),
{
}

/// Every step keeps an intake sound, and keeps it that only streams and YouTube videos are
/// remembered.
pub proof fn only_streams_and_youtube_are_remembered(
    v: IntakeView,
    entries: Entries,
    event: EventView,
)
    requires
        is_sound(v),
        remembers_looked_up(entries),
        accepts(v, event),
    ensures
        is_sound(step(v, entries, event).0),
        remembers_looked_up(step(v, entries, event).1),
{
    if v.links.len() > 0 {
        assert(is_stored_link(v.links[0]));
        keyed_platform(v.links[0]);
        assert forall|i: int| 0 <= i < v.links.skip(1).len() implies is_stored_link(
            #[trigger] v.links.skip(1)[i],
        ) by {
            assert(v.links.skip(1)[i] == v.links[i + 1]);
        }
    }
}

/// Dropping old entries keeps it that only streams and YouTube videos are remembered.
pub proof fn cleaning_keeps_what_is_remembered(entries: Entries, now_millis: int)
    requires
        remembers_looked_up(entries),
    ensures
        remembers_looked_up(young_entries(entries, now_millis)),
{
    assert forall|link: Seq<char>| #[trigger]
        young_entries(entries, now_millis).contains_key(link) implies is_looked_up(
        kind_of(platform_of(link)),
    ) by {
        assert(entries.contains_key(link));
    }
}

/// The title of a video or clip on Twitch comes from Twitch each time, never from the cache: one
/// that Twitch finds is stored with the first title, and one that it does not find is passed over.
pub proof fn videos_and_clips_are_not_remembered(
    v: IntakeView,
    entries: Entries,
    kind: Kind,
    embed: EmbedView,
    titles: Seq<Seq<char>>,
)
    requires
        is_sound(v),
        remembers_looked_up(entries),
        v.stage == StageView::Asked(kind, embed),
        kind == Kind::Video || kind == Kind::Clip,
    ensures
        ({
            let (w, after, action) = step(v, entries, EventView::Helix(HelixView::Titles(titles)));
            &&& after == entries
            &&& titles.len() > 0 ==> action == ActionView::Insert(
                RowView {
                    timest: whole_seconds(v.timestamp),
                    link: embed.link,
                    platform: embed.platform,
                    channel: embed.channel,
                    title: titles[0],
                },
                None,
            )
            &&& titles.len() == 0 ==> (w, action) == begin(v, entries)
        }),
{
}

/// A stream that was found live is not asked for again while it is remembered: a link to it, in
/// whatever letters, is stored with the title that was learnt.
pub proof fn remembered_stream_is_not_asked_again(
    v: IntakeView,
    entries: Entries,
    embed: EmbedView,
    titles: Seq<Seq<char>>,
    later: IntakeView,
)
    requires
        v.stage == StageView::Asked(Kind::Stream, embed),
        titles.len() > 0,
        later.links.len() > 0,
        kind_of(embed_of(later.links[0]).platform) == Kind::Stream,
        lowercase(later.links[0]) == embed.link,
    ensures
        ({
            let (_, after, _) = step(v, entries, EventView::Helix(HelixView::Titles(titles)));
            &&& after == entries.insert(
                embed.link,
                EntryView {
                    timestamp: v.timestamp,
                    platform: embed.platform,
                    channel: embed.channel,
                    title: titles[0],
                },
            )
            &&& begin(later, after).1 == ActionView::Insert(
                RowView {
                    timest: whole_seconds(later.timestamp),
                    link: embed.link,
                    platform: keyed_embed(later.links[0]).platform,
                    channel: keyed_embed(later.links[0]).channel,
                    title: titles[0],
                },
                None,
            )
        }),
{
}

/// A YouTube video that YouTube told about is not asked for again while it is remembered: a link
/// to it is stored with the title that was learnt, and with its id as the channel.
pub proof fn remembered_video_is_not_asked_again(
    v: IntakeView,
    entries: Entries,
    embed: EmbedView,
    author: Seq<char>,
    title: Seq<char>,
    later: IntakeView,
)
    requires
        v.stage == StageView::Reading(embed),
        later.links.len() > 0,
        kind_of(embed_of(later.links[0]).platform) == Kind::Youtube,
        later.links[0] == embed.link,
    ensures
        ({
            let (_, after, action) = step(
                v,
                entries,
                EventView::OembedBody(Some((author, title))),
            );
            &&& action == ActionView::Insert(
                RowView {
                    timest: whole_seconds(v.timestamp),
                    link: embed.link,
                    platform: embed.platform,
                    channel: author,
                    title: title,
                },
                None,
            )
            &&& begin(later, after).1 == ActionView::Insert(
                RowView {
                    timest: whole_seconds(later.timestamp),
                    link: embed.link,
                    platform: embed_of(later.links[0]).platform,
                    channel: embed_of(later.links[0]).channel,
                    title: title,
                },
                None,
            )
        }),
{
}

/// Until a minute after its message was posted an entry outlives every cleaning; a cleaning after
/// that drops it. A look-up does not ask for the age: between two cleanings an entry can be found
/// that is older.
pub proof fn entry_lives_a_minute(
    entries: Entries,
    link: Seq<char>,
    entry: EntryView,
    now_millis: int,
)
    ensures
        young_entries(entries.insert(link, entry), now_millis).contains_key(link) <==> now_millis
            < entry.timestamp + 60_000,
        now_millis < entry.timestamp + 60_000 ==> young_entries(
            entries.insert(link, entry),
            now_millis,
        )[link] == entry,
{
}

/// It does not matter how often old entries are dropped: what counts is the latest time.
pub proof fn cleaning_again(entries: Entries, first: int, second: int)
    requires
        first <= second,
    ensures
        young_entries(young_entries(entries, first), second) == young_entries(entries, second),
{
    assert(young_entries(young_entries(entries, first), second) =~= young_entries(entries, second));
}

/// How long is waited after so many panics in a row.
pub open spec fn delay_after(panics: nat) -> int
    decreases panics,
{
    if panics == 0 {
        0
    } else {
        longer(delay_after((panics - 1) as nat))
    }
}

/// The wait is doubled with every panic, from one second up to 128 seconds.
pub proof fn delay_is_doubled(panics: nat)
    ensures
        panics == 0 ==> delay_after(panics) == 0,
        1 <= panics <= 8 ==> delay_after(panics) == pow2((panics - 1) as nat),
        panics >= 8 ==> delay_after(panics) == 128,
    decreases panics,
{
    lemma2_to64();
    if panics > 0 {
        delay_is_doubled((panics - 1) as nat);
        if 2 <= panics <= 8 {
            lemma_pow2_unfold((panics - 1) as nat);
        }
    }
}

/// The wait never shrinks with a panic, and never grows beyond 128 seconds.
pub proof fn delay_is_bounded(delay: int)
    requires
        0 <= delay <= 128,
    ensures
        delay <= longer(delay) <= 128,
        longer(delay) >= 1,
{
}

/// The state of a session after events, and what it told to do at each of them. There is none if
/// an event is not what the session waits for.
pub open spec fn session_run(v: SessionView, events: Seq<SessionEventView>) -> Option<
    (SessionView, Seq<SessionActionView>),
>
    decreases events.len(),
{
    if events.len() == 0 {
        Some((v, seq![]))
    } else {
        match session_run(v, events.drop_last()) {
            Some((u, actions)) => match session_step(u, events.last()) {
                Some((w, action)) => Some((w, actions.push(action))),
                None => None,
            },
            None => None,
        }
    }
}

/// How many frames came.
pub open spec fn frames(events: Seq<SessionEventView>) -> nat
    decreases events.len(),
{
    if events.len() == 0 {
        0
    } else {
        frames(events.drop_last()) + if events.last() is Received {
            1nat
        } else {
            0nat
        }
    }
}

/// How often the watchdog is told that the connection is alive.
pub open spec fn beats(actions: Seq<SessionActionView>) -> nat
    decreases actions.len(),
{
    if actions.len() == 0 {
        0
    } else {
        beats(actions.drop_last()) + if actions.last() is Beat {
            1nat
        } else {
            0nat
        }
    }
}

/// The watchdog is told of every frame, once.
pub proof fn every_frame_is_a_beat(v: SessionView, events: Seq<SessionEventView>)
    ensures
        session_run(v, events) matches Some((_, actions)) ==> beats(actions) == frames(events),
    decreases events.len(),
{
    if events.len() > 0 {
        every_frame_is_a_beat(v, events.drop_last());
        if let Some((u, actions)) = session_run(v, events.drop_last()) {
            if let Some((w, action)) = session_step(u, events.last()) {
                assert(actions.push(action).drop_last() =~= actions);
            }
        }
    }
}

/// A session gives up or leaves the connection once, and does nothing more after that.
pub proof fn over_is_the_end(v: SessionView, event: SessionEventView)
    ensures
        session_step(SessionView::Over, event) is None,
        session_step(v, event) matches Some((w, action)) ==> (w is Over <==> action is Fail
            || action is Finish),
{
}

/// Whether an action is the answer to a frame.
pub open spec fn is_answer(action: SessionActionView) -> bool {
    action is Handle || action is Pong
}

/// The answer that a frame is owed, if there is one: that a chat message is dealt with, or that a
/// ping is answered with what it carries.
pub open spec fn owed(frame: FrameView) -> Seq<SessionActionView> {
    let action = dispatch(frame).1;
    if is_answer(action) {
        seq![action]
    } else {
        seq![]
    }
}

/// The answers that the frames which came are owed.
pub open spec fn all_owed(events: Seq<SessionEventView>) -> Seq<SessionActionView>
    decreases events.len(),
{
    if events.len() == 0 {
        seq![]
    } else {
        match events.last() {
            SessionEventView::Received(frame) => all_owed(events.drop_last()) + owed(frame),
            _ => all_owed(events.drop_last()),
        }
    }
}

/// The answers that were given.
pub open spec fn answers(actions: Seq<SessionActionView>) -> Seq<SessionActionView>
    decreases actions.len(),
{
    if actions.len() == 0 {
        seq![]
    } else if is_answer(actions.last()) {
        answers(actions.drop_last()).push(actions.last())
    } else {
        answers(actions.drop_last())
    }
}

/// The answer that the frame in hand is owed.
pub open spec fn in_hand(v: SessionView) -> Seq<SessionActionView> {
    match v {
        SessionView::Beating(frame) => owed(frame),
        SessionView::Polling(frame) => owed(frame),
        SessionView::Checking(frame) => owed(frame),
        _ => seq![],
    }
}

/// The token was found to be invalid, so that the frame in hand was given up.
pub open spec fn token_refused(w: SessionView, actions: Seq<SessionActionView>) -> bool {
    ||| w is Refreshing
    ||| actions.len() > 0 && actions.last() == SessionActionView::Fail(SessionFailure::TokenExpired)
}

/// In every run of a session each frame that is owed an answer is given it, once and in the order
/// in which the frames came: the answers that were given, and the one that the frame in hand is
/// owed, are those that the frames are owed. If the token is refused it is only that one which is
/// not given.
pub proof fn every_frame_is_answered(events: Seq<SessionEventView>)
    ensures
        session_run(SessionView::Connecting, events) matches Some((w, actions)) ==> {
            &&& !token_refused(w, actions) ==> all_owed(events) == answers(actions) + in_hand(w)
            &&& token_refused(w, actions) ==> exists|frame: FrameView|
                all_owed(events) == answers(actions) + #[trigger] owed(frame)
        },
    decreases events.len(),
{
    if events.len() > 0 {
        let before = events.drop_last();
        let event = events.last();
        every_frame_is_answered(before);
        if let Some((u, told)) = session_run(SessionView::Connecting, before) {
            over_after_refusal(before);
            if let Some((w, action)) = session_step(u, event) {
                let actions = told.push(action);
                assert(actions.drop_last() =~= told);
                let given = answers(told);
                match u {
                    SessionView::Checking(frame) => {
                        assert(all_owed(events) == given + owed(frame));
                    },
                    SessionView::Refreshing => {
                        let frame = choose|frame: FrameView|
                            all_owed(before) == given + #[trigger] owed(frame);
                        assert(all_owed(events) == answers(actions) + owed(frame));
                    },
                    _ => {},
                }
                if !token_refused(w, actions) {
                    assert(all_owed(events) =~= answers(actions) + in_hand(w));
                }
            }
        }
    } else {
        assert(all_owed(events) =~= answers(seq![]) + in_hand(SessionView::Connecting));
    }
}

/// A session that told of an expired token is over.
proof fn over_after_refusal(events: Seq<SessionEventView>)
    ensures
        session_run(SessionView::Connecting, events) matches Some((w, actions)) ==> (actions.len()
            > 0 && actions.last() is Fail ==> w is Over),
{
}

/// What pings carried.
pub open spec fn pings(events: Seq<SessionEventView>) -> Seq<Seq<u8>>
    decreases events.len(),
{
    if events.len() == 0 {
        seq![]
    } else {
        match events.last() {
            SessionEventView::Received(FrameView::Ping(data)) => pings(events.drop_last()).push(
                data,
            ),
            _ => pings(events.drop_last()),
        }
    }
}

/// What is told to carry by the answers to pings.
pub open spec fn pongs(actions: Seq<SessionActionView>) -> Seq<Seq<u8>>
    decreases actions.len(),
{
    if actions.len() == 0 {
        seq![]
    } else {
        match actions.last() {
            SessionActionView::Pong(data) => pongs(actions.drop_last()).push(data),
            _ => pongs(actions.drop_last()),
        }
    }
}

/// What the ping in hand carries.
pub open spec fn ping_in_hand(v: SessionView) -> Seq<Seq<u8>> {
    match v {
        SessionView::Beating(FrameView::Ping(data)) => seq![data],
        SessionView::Polling(FrameView::Ping(data)) => seq![data],
        SessionView::Checking(FrameView::Ping(data)) => seq![data],
        _ => seq![],
    }
}

/// In every run of a session each ping is answered with what it carries, once and in the order in
/// which the pings came, but for one that is given up because the token is refused.
pub proof fn every_ping_is_answered(events: Seq<SessionEventView>)
    ensures
        session_run(SessionView::Connecting, events) matches Some((w, actions)) ==> {
            &&& !token_refused(w, actions) ==> pings(events) == pongs(actions) + ping_in_hand(w)
            &&& token_refused(w, actions) ==> pongs(actions).is_prefix_of(pings(events))
                && pings(events).len() <= pongs(actions).len() + 1
        },
    decreases events.len(),
{
    if events.len() > 0 {
        let before = events.drop_last();
        every_ping_is_answered(before);
        if let Some((u, told)) = session_run(SessionView::Connecting, before) {
            over_after_refusal(before);
            if let Some((w, action)) = session_step(u, events.last()) {
                let actions = told.push(action);
                assert(actions.drop_last() =~= told);
                if !token_refused(w, actions) {
                    assert(pings(events) =~= pongs(actions) + ping_in_hand(w));
                }
            }
        }
    } else {
        assert(pings(events) =~= pongs(seq![]) + ping_in_hand(SessionView::Connecting));
    }
}

/// A frame is dealt with behind a beat, and behind a validation of the token if one is due.
pub proof fn frame_is_dealt_with(frame: FrameView)
    ensures
        ({
            let quick = seq![
                SessionEventView::Received(frame),
                SessionEventView::Done,
                SessionEventView::ValidationDue(false),
            ];
            let checked = seq![
                SessionEventView::Received(frame),
                SessionEventView::Done,
                SessionEventView::ValidationDue(true),
                SessionEventView::TokenValid(true),
            ];
            let (w, action) = dispatch(frame);
            &&& session_run(SessionView::Listening, quick) == Some(
                (w, seq![SessionActionView::Beat, SessionActionView::PollValidation, action]),
            )
            &&& session_run(SessionView::Listening, checked) == Some(
                (
                    w,
                    seq![
                        SessionActionView::Beat,
                        SessionActionView::PollValidation,
                        SessionActionView::ValidateToken,
                        action,
                    ],
                ),
            )
        }),
{
    let one = seq![SessionEventView::Received(frame)];
    let two = one.push(SessionEventView::Done);
    reveal_with_fuel(session_run, 5);
    assert(one.drop_last() =~= seq![]);
    assert(two.drop_last() =~= one);
    let quick = two.push(SessionEventView::ValidationDue(false));
    assert(quick.drop_last() =~= two);
    let three = two.push(SessionEventView::ValidationDue(true));
    assert(three.drop_last() =~= two);
    let checked = three.push(SessionEventView::TokenValid(true));
    assert(checked.drop_last() =~= three);
}

/// If the token is not valid a new one is asked for, and the connection is given up with the
/// frame not dealt with.
pub proof fn expired_token_is_refreshed(frame: FrameView)
    ensures
        session_step(SessionView::Checking(frame), SessionEventView::TokenValid(false)) == Some(
            (SessionView::Refreshing, SessionActionView::RequestRefresh),
        ),
        session_step(SessionView::Refreshing, SessionEventView::Done) == Some(
            (SessionView::Over, SessionActionView::Fail(SessionFailure::TokenExpired)),
        ),
{
}

} // verus!
