//! What is done with the embeds of one chat message.
//!
//! An [`Intake`] takes the links of a message one after the other. Each step tells what to do
//! next: ask a service about the link, put a row into the database, or stop. The next step is
//! given what came of it.

use crate::cache::{Cache, CacheEntry, Entries, EntryView};
use crate::embed::{
    embed_of, kind, kind_of, lowercase, read_link, stored_link_is_read, to_lowercase, Embed,
    EmbedView, Kind,
};
use crate::links::{
    are_captures, capture_links, captures, embed_at, embed_kept, is_id, is_stored_link, is_tag,
    link_text, links_in_order, match_links, stored_tag, without_repeats, EMBED_PATTERN,
};
use crate::oembed::{oembed_address, oembed_url, YoutubeOEmbed};
use vstd::prelude::*;

verus! {

/// A chat message: its text, and when it was posted, in milliseconds.
#[derive(Debug)]
pub struct Message {
    pub data: String,
    pub timestamp: i64,
}

/// A row of the database. Its time is in seconds.
#[derive(Debug)]
pub struct Row {
    pub timest: i64,
    pub link: String,
    pub platform: String,
    pub channel: String,
    pub title: String,
}

/// The contents of a [`Row`].
pub struct RowView {
    pub timest: int,
    pub link: Seq<char>,
    pub platform: Seq<char>,
    pub channel: Seq<char>,
    pub title: Seq<char>,
}

impl View for Row {
    type V = RowView;

    open spec fn view(&self) -> RowView {
        RowView {
            timest: self.timest as int,
            link: self.link@,
            platform: self.platform@,
            channel: self.channel@,
            title: self.title@,
        }
    }
}

/// What came of asking Twitch.
#[derive(Debug)]
pub enum HelixReply {
    /// It answered, with the titles of what it found.
    Titles(Vec<String>),
    /// The request failed, with the status of the failure if it has one.
    Unreachable(Option<u16>),
    /// It refused the request, with a status.
    Refused(u16),
    /// It answered with something that is no answer.
    Garbled,
    /// The request could not be made.
    Broken,
}

/// The contents of a [`HelixReply`].
pub enum HelixView {
    Titles(Seq<Seq<char>>),
    Unreachable(Option<u16>),
    Refused(u16),
    Garbled,
    Broken,
}

impl View for HelixReply {
    type V = HelixView;

    open spec fn view(&self) -> HelixView {
        match self {
            HelixReply::Titles(titles) => HelixView::Titles(titles.deep_view()),
            HelixReply::Unreachable(status) => HelixView::Unreachable(*status),
            HelixReply::Refused(status) => HelixView::Refused(*status),
            HelixReply::Garbled => HelixView::Garbled,
            HelixReply::Broken => HelixView::Broken,
        }
    }
}

/// What came of the last action.
#[derive(Debug)]
pub enum Event {
    /// The intake was made, or the row was put into the database.
    Go,
    /// Twitch was asked.
    Helix(HelixReply),
    /// YouTube could not be asked.
    OembedUnreachable,
    /// YouTube answered with a status.
    OembedStatus(u16),
    /// YouTube's answer was read, and said this if it could be understood.
    OembedBody(Option<YoutubeOEmbed>),
}

/// The contents of an [`Event`]. What YouTube says is its author and its title.
pub enum EventView {
    Go,
    Helix(HelixView),
    OembedUnreachable,
    OembedStatus(u16),
    OembedBody(Option<(Seq<char>, Seq<char>)>),
}

impl View for Event {
    type V = EventView;

    open spec fn view(&self) -> EventView {
        match self {
            Event::Go => EventView::Go,
            Event::Helix(reply) => EventView::Helix(reply@),
            Event::OembedUnreachable => EventView::OembedUnreachable,
            Event::OembedStatus(status) => EventView::OembedStatus(*status),
            Event::OembedBody(Some(body)) => EventView::OembedBody(
                Some((body.author_name@, body.title@)),
            ),
            Event::OembedBody(None) => EventView::OembedBody(None),
        }
    }
}

/// What is worth a line in the log.
#[derive(Clone, Copy, Debug, PartialEq, Eq, Structural)]
pub enum Notice {
    /// The request failed.
    RequestFailed,
    /// Twitch was asked too often.
    TooManyRequests,
    /// Twitch is not available.
    ServiceUnavailable,
}

/// Why a message cannot be dealt with. The connection is given up then.
#[derive(Clone, Copy, Debug, PartialEq, Eq, Structural)]
pub enum Failure {
    /// The request could not be made.
    BrokenRequest,
    /// The request failed without a status.
    NoStatus,
    /// YouTube's answer could not be understood.
    BadOembed,
}

/// What to do next.
#[derive(Debug)]
pub enum Action {
    /// Ask Twitch for the stream of this user.
    AskStream(String),
    /// Ask Twitch for the video of this id.
    AskVideo(String),
    /// Ask Twitch for the clip of this id.
    AskClip(String),
    /// Ask YouTube at this address.
    AskOembed(String),
    /// Read what YouTube answered.
    ReadOembed,
    /// Write this notice, if there is one, and put this row into the database.
    Insert(Row, Option<Notice>),
    /// Give up.
    Fail(Failure),
    /// All links were dealt with.
    Finish,
}

/// The contents of an [`Action`].
pub enum ActionView {
    AskStream(Seq<char>),
    AskVideo(Seq<char>),
    AskClip(Seq<char>),
    AskOembed(Seq<char>),
    ReadOembed,
    Insert(RowView, Option<Notice>),
    Fail(Failure),
    Finish,
}

impl View for Action {
    type V = ActionView;

    open spec fn view(&self) -> ActionView {
        match self {
            Action::AskStream(login) => ActionView::AskStream(login@),
            Action::AskVideo(id) => ActionView::AskVideo(id@),
            Action::AskClip(id) => ActionView::AskClip(id@),
            Action::AskOembed(url) => ActionView::AskOembed(url@),
            Action::ReadOembed => ActionView::ReadOembed,
            Action::Insert(row, notice) => ActionView::Insert(row@, *notice),
            Action::Fail(failure) => ActionView::Fail(*failure),
            Action::Finish => ActionView::Finish,
        }
    }
}

/// What an intake waits for.
#[derive(Debug)]
enum Stage {
    /// To go on with the next link.
    Ready,
    /// To be told what came of asking about an embed.
    Asked(Kind, Embed),
    /// To be told what YouTube says about an embed.
    Reading(Embed),
    /// Nothing: it is over.
    Over,
}

/// The contents of what an intake waits for.
pub enum StageView {
    Ready,
    Asked(Kind, EmbedView),
    Reading(EmbedView),
    Over,
}

impl View for Stage {
    type V = StageView;

    closed spec fn view(&self) -> StageView {
        match self {
            Stage::Ready => StageView::Ready,
            Stage::Asked(kind, embed) => StageView::Asked(*kind, embed@),
            Stage::Reading(embed) => StageView::Reading(embed@),
            Stage::Over => StageView::Over,
        }
    }
}

/// The links of a message on their way into the database.
pub struct Intake {
    timestamp: i64,
    links: Vec<String>,
    next: usize,
    stage: Stage,
}

/// The state of an [`Intake`]: when the message was posted, in milliseconds, the links that are
/// still to come, and what it waits for.
pub struct IntakeView {
    pub timestamp: int,
    pub links: Seq<Seq<char>>,
    pub stage: StageView,
}

impl View for Intake {
    type V = IntakeView;

    closed spec fn view(&self) -> IntakeView {
        IntakeView {
            timestamp: self.timestamp as int,
            links: self.links.deep_view().skip(self.next as int),
            stage: self.stage@,
        }
    }
}

/// Milliseconds in whole seconds, rounded towards zero.
pub open spec fn whole_seconds(millis: int) -> int {
    if millis >= 0 {
        millis / 1000
    } else {
        -((-millis) / 1000)
    }
}

/// The row for an embed.
pub open spec fn row_of(timestamp: int, embed: EmbedView, title: Seq<char>) -> RowView {
    RowView {
        timest: whole_seconds(timestamp),
        link: embed.link,
        platform: embed.platform,
        channel: embed.channel,
        title,
    }
}

/// The cache entry for an embed.
pub open spec fn entry_of(timestamp: int, embed: EmbedView, title: Seq<char>) -> EntryView {
    EntryView { timestamp, platform: embed.platform, channel: embed.channel, title }
}

/// What becomes of an embed once something came back about it.
pub enum Outcome {
    /// It is stored, and remembered if there is an entry.
    Store(RowView, Option<Notice>, Option<EntryView>),
    /// It is passed over.
    Skip,
    /// The answer is read first.
    Read,
    /// The message is given up.
    Fail(Failure),
}

/// What is worth noting about the status with which Twitch refused a request.
pub open spec fn refusal_notice(status: u16) -> Option<Notice> {
    if status == 429 {
        Some(Notice::TooManyRequests)
    } else if status == 503 {
        Some(Notice::ServiceUnavailable)
    } else {
        None
    }
}

/// What becomes of an embed once Twitch was asked about it. A stream is remembered if it is live;
/// a video or clip is not, and if it is remembered all the same the reply does not count.
pub open spec fn helix_outcome(
    kind: Kind,
    timestamp: int,
    embed: EmbedView,
    entries: Entries,
    reply: HelixView,
) -> Outcome {
    let untitled = row_of(timestamp, embed, seq![]);
    if kind != Kind::Stream && entries.contains_key(embed.link) {
        Outcome::Store(row_of(timestamp, embed, entries[embed.link].title), None, None)
    } else {
        match reply {
            HelixView::Titles(titles) => if titles.len() == 0 {
                Outcome::Skip
            } else {
                Outcome::Store(
                    row_of(timestamp, embed, titles[0]),
                    None,
                    if kind == Kind::Stream {
                        Some(entry_of(timestamp, embed, titles[0]))
                    } else {
                        None
                    },
                )
            },
            HelixView::Unreachable(status) => if kind == Kind::Stream {
                Outcome::Store(untitled, Some(Notice::RequestFailed), None)
            } else {
                match status {
                    None => Outcome::Fail(Failure::NoStatus),
                    Some(code) => Outcome::Store(
                        untitled,
                        if code == 503 {
                            Some(Notice::ServiceUnavailable)
                        } else {
                            None
                        },
                        None,
                    ),
                }
            },
            HelixView::Refused(status) => Outcome::Store(untitled, refusal_notice(status), None),
            HelixView::Garbled => Outcome::Store(untitled, None, None),
            HelixView::Broken => Outcome::Fail(Failure::BrokenRequest),
        }
    }
}

/// What becomes of an embed once YouTube's answer was read. The author takes the place of the
/// channel.
pub open spec fn body_outcome(
    timestamp: int,
    embed: EmbedView,
    body: Option<(Seq<char>, Seq<char>)>,
) -> Outcome {
    match body {
        Some((author, title)) => {
            let named = EmbedView { channel: author, ..embed };
            Outcome::Store(
                row_of(timestamp, named, title),
                None,
                Some(entry_of(timestamp, named, title)),
            )
        },
        None => Outcome::Fail(Failure::BadOembed),
    }
}

/// What becomes of an embed at an event.
pub open spec fn outcome(v: IntakeView, entries: Entries, event: EventView) -> Outcome {
    match (v.stage, event) {
        (StageView::Asked(kind, embed), EventView::Helix(reply)) => helix_outcome(
            kind,
            v.timestamp,
            embed,
            entries,
            reply,
        ),
        (StageView::Asked(_, embed), EventView::OembedUnreachable) => Outcome::Store(
            row_of(v.timestamp, embed, seq![]),
            Some(Notice::RequestFailed),
            None,
        ),
        (StageView::Asked(_, _), EventView::OembedStatus(status)) => if status == 200 {
            Outcome::Read
        } else {
            Outcome::Skip
        },
        (StageView::Reading(embed), EventView::OembedBody(body)) => body_outcome(
            v.timestamp,
            embed,
            body,
        ),
        _ => Outcome::Skip,
    }
}

/// The embed as which a link is stored and remembered: a stream is in small letters.
pub open spec fn keyed_embed(link: Seq<char>) -> EmbedView {
    let embed = embed_of(link);
    if kind_of(embed.platform) == Kind::Stream {
        EmbedView { link: lowercase(link), ..embed }
    } else {
        embed
    }
}

/// Whether the cache is looked at before a service is asked.
pub open spec fn is_looked_up(kind: Kind) -> bool {
    kind == Kind::Stream || kind == Kind::Youtube
}

/// How a service is asked about an embed.
pub open spec fn question(kind: Kind, embed: EmbedView) -> ActionView {
    match kind {
        Kind::Stream => ActionView::AskStream(embed.channel),
        Kind::Video => ActionView::AskVideo(embed.channel),
        Kind::Clip => ActionView::AskClip(embed.channel),
        _ => ActionView::AskOembed(oembed_address(embed.channel)),
    }
}

/// How an intake goes on with the next link: if there is none it is over; if the platform is not
/// asked the link is stored without a title; if it is remembered it is stored with the title
/// that is remembered; else the service is asked.
pub open spec fn begin(v: IntakeView, entries: Entries) -> (IntakeView, ActionView) {
    if v.links.len() == 0 {
        (IntakeView { stage: StageView::Over, ..v }, ActionView::Finish)
    } else {
        let embed = keyed_embed(v.links[0]);
        let kind = kind_of(embed.platform);
        let rest = v.links.skip(1);
        if kind == Kind::Unasked {
            (
                IntakeView { links: rest, stage: StageView::Ready, ..v },
                ActionView::Insert(row_of(v.timestamp, embed, seq![]), None),
            )
        } else if is_looked_up(kind) && entries.contains_key(embed.link) {
            (
                IntakeView { links: rest, stage: StageView::Ready, ..v },
                ActionView::Insert(row_of(v.timestamp, embed, entries[embed.link].title), None),
            )
        } else {
            (
                IntakeView { links: rest, stage: StageView::Asked(kind, embed), ..v },
                question(kind, embed),
            )
        }
    }
}

/// The embed that an intake waits for.
pub open spec fn waiting_embed(stage: StageView) -> EmbedView {
    match stage {
        StageView::Asked(_, embed) => embed,
        StageView::Reading(embed) => embed,
        _ => arbitrary(),
    }
}

/// Whether an event is what an intake waits for.
pub open spec fn accepts(v: IntakeView, event: EventView) -> bool {
    match v.stage {
        StageView::Ready => event is Go,
        StageView::Asked(Kind::Youtube, _) => event is OembedUnreachable || event is OembedStatus,
        StageView::Asked(_, _) => event is Helix,
        StageView::Reading(_) => event is OembedBody,
        StageView::Over => false,
    }
}

/// One step of an intake: its next state, the entries of the cache afterwards, and what to do.
pub open spec fn step(v: IntakeView, entries: Entries, event: EventView) -> (
    IntakeView,
    Entries,
    ActionView,
) {
    if event is Go {
        let (next, action) = begin(v, entries);
        (next, entries, action)
    } else {
        let embed = waiting_embed(v.stage);
        match outcome(v, entries, event) {
            Outcome::Store(row, notice, entry) => (
                IntakeView { stage: StageView::Ready, ..v },
                match entry {
                    Some(e) => entries.insert(embed.link, e),
                    None => entries,
                },
                ActionView::Insert(row, notice),
            ),
            Outcome::Skip => {
                let (next, action) = begin(v, entries);
                (next, entries, action)
            },
            Outcome::Read => (
                IntakeView { stage: StageView::Reading(embed), ..v },
                entries,
                ActionView::ReadOembed,
            ),
            Outcome::Fail(failure) => (
                IntakeView { stage: StageView::Over, ..v },
                entries,
                ActionView::Fail(failure),
            ),
        }
    }
}

/// Turns milliseconds into whole seconds.
fn seconds(millis: i64) -> (r: i64)
    ensures
        r == whole_seconds(millis as int),
{
    if millis >= 0 {
        millis / 1000
    } else {
        let positive: i128 = -(millis as i128);
        let whole: i128 = positive / 1000;
        (-whole) as i64
    }
}

/// Makes the row for an embed.
fn make_row(timestamp: i64, embed: &Embed, title: String) -> (r: Row)
    ensures
        r@ == row_of(timestamp as int, embed@, title@),
{
    Row {
        timest: seconds(timestamp),
        link: embed.link.clone(),
        platform: embed.platform.clone(),
        channel: embed.channel.clone(),
        title,
    }
}

/// Makes the cache entry for an embed.
fn make_entry(timestamp: i64, embed: &Embed, title: String) -> (r: CacheEntry)
    ensures
        r@ == entry_of(timestamp as int, embed@, title@),
{
    CacheEntry {
        timestamp,
        platform: embed.platform.clone(),
        channel: embed.channel.clone(),
        title,
    }
}

/// An intake that has not begun.
pub open spec fn fresh(timestamp: int, links: Seq<Seq<char>>) -> IntakeView {
    IntakeView { timestamp, links, stage: StageView::Ready }
}

impl Intake {
    /// Every link that is still to come is one as it is stored.
    pub closed spec fn wf(&self) -> bool {
        &&& self.next <= self.links@.len()
        &&& forall|i: int|
            0 <= i < self.links@.len() ==> is_stored_link(#[trigger] self.links.deep_view()[i])
    }

    /// An intake of the embeds of a message.
    pub fn new(message: &Message) -> (r: Intake)
        ensures
            r.wf(),
            r@ == fresh(
                message.timestamp as int,
                without_repeats(match_links(captures(EMBED_PATTERN@, message.data@))),
            ),
            are_captures(message.data@, captures(EMBED_PATTERN@, message.data@)),
            exists|at: Seq<int>| links_in_order(message.data@, r@.links, at),
            forall|i: int| 0 <= i < r@.links.len() ==> is_stored_link(#[trigger] r@.links[i]),
            forall|j: int, tag: Seq<char>, id: Seq<char>|
                embed_at(message.data@, j, tag, id) ==> embed_kept(
                    message.data@,
                    j,
                    tag,
                    id,
                    r@.links,
                ),
    {
        let links = capture_links(message.data.as_str());
        let ghost at = choose|at: Seq<int>|
            links_in_order(message.data@, links.deep_view(), at);
        let r = Intake::from_links(message.timestamp, links);
        assert(links_in_order(message.data@, r@.links, at));
        r
    }

    /// An intake of links.
    pub fn from_links(timestamp: i64, links: Vec<String>) -> (r: Intake)
        requires
            forall|i: int| 0 <= i < links@.len() ==> is_stored_link(#[trigger] links.deep_view()[i]),
        ensures
            r.wf(),
            r@ == fresh(timestamp as int, links.deep_view()),
    {
        assert(links.deep_view().skip(0) =~= links.deep_view());
        Intake { timestamp, links, next: 0, stage: Stage::Ready }
    }

    /// Whether an event is what the intake waits for.
    pub fn accepts(&self, event: &Event) -> (r: bool)
        ensures
            r == accepts(self@, event@),
    {
        match &self.stage {
            Stage::Ready => matches!(event, Event::Go),
            Stage::Asked(Kind::Youtube, _) => matches!(
                event,
                Event::OembedUnreachable | Event::OembedStatus(_)
            ),
            Stage::Asked(_, _) => matches!(event, Event::Helix(_)),
            Stage::Reading(_) => matches!(event, Event::OembedBody(_)),
            Stage::Over => false,
        }
    }

    /// Goes on with the next link.
    fn begin(&mut self, cache: &Cache) -> (r: Action)
        requires
            old(self).wf(),
            cache.wf(),
        ensures
            final(self).wf(),
            (final(self)@, r@) == begin(old(self)@, cache@),
    {
        let ghost links = self@.links;
        if self.next == self.links.len() {
            self.stage = Stage::Over;
            return Action::Finish;
        }
        proof {
            let link = self.links.deep_view()[self.next as int];
            assert(is_stored_link(link));
            let (tag, id) = choose|tag: Seq<char>, id: Seq<char>|
                is_tag(tag) && is_id(id) && link == #[trigger] link_text(stored_tag(tag), id);
            stored_link_is_read(tag, id);
            assert(links[0] == link);
            assert(self.links.deep_view().skip(self.next + 1) =~= links.skip(1));
        }
        let mut embed = read_link(self.links[self.next].as_str());
        self.next += 1;
        let kind = kind(embed.platform.as_str());
        if kind == Kind::Stream {
            embed.link = to_lowercase(embed.link.as_str());
        }
        assert(embed@ == keyed_embed(links[0]));
        if kind == Kind::Unasked {
            self.stage = Stage::Ready;
            return Action::Insert(make_row(self.timestamp, &embed, String::new()), None);
        }
        if kind == Kind::Stream || kind == Kind::Youtube {
            if let Some(title) = cache.title(embed.link.as_str()) {
                self.stage = Stage::Ready;
                return Action::Insert(make_row(self.timestamp, &embed, title), None);
            }
        }
        let action = match kind {
            Kind::Stream => Action::AskStream(embed.channel.clone()),
            Kind::Video => Action::AskVideo(embed.channel.clone()),
            Kind::Clip => Action::AskClip(embed.channel.clone()),
            _ => Action::AskOembed(oembed_url(embed.channel.as_str())),
        };
        self.stage = Stage::Asked(kind, embed);
        action
    }

    /// Stores an embed.
    fn store(&mut self, embed: &Embed, title: String, notice: Option<Notice>) -> (r: Action)
        requires
            old(self).wf(),
        ensures
            final(self).wf(),
            final(self)@ == (IntakeView { stage: StageView::Ready, ..old(self)@ }),
            r@ == ActionView::Insert(row_of(old(self)@.timestamp, embed@, title@), notice),
    {
        self.stage = Stage::Ready;
        Action::Insert(make_row(self.timestamp, embed, title), notice)
    }

    /// Stores an embed and remembers it.
    fn store_and_remember(&mut self, cache: &mut Cache, embed: Embed, title: String) -> (r: Action)
        requires
            old(self).wf(),
            old(cache).wf(),
        ensures
            final(self).wf(),
            final(cache).wf(),
            final(self)@ == (IntakeView { stage: StageView::Ready, ..old(self)@ }),
            final(cache)@ == old(cache)@.insert(
                embed@.link,
                entry_of(old(self)@.timestamp, embed@, title@),
            ),
            r@ == ActionView::Insert(row_of(old(self)@.timestamp, embed@, title@), None),
    {
        let entry = make_entry(self.timestamp, &embed, title.clone());
        cache.insert(embed.link.clone(), entry);
        self.store(&embed, title, None)
    }

    /// Gives the message up.
    fn fail(&mut self, failure: Failure) -> (r: Action)
        requires
            old(self).wf(),
        ensures
            final(self).wf(),
            final(self)@ == (IntakeView { stage: StageView::Over, ..old(self)@ }),
            r@ == ActionView::Fail(failure),
    {
        self.stage = Stage::Over;
        Action::Fail(failure)
    }

    /// Goes on once Twitch was asked about an embed.
    fn on_helix(
        &mut self,
        cache: &mut Cache,
        kind: Kind,
        embed: Embed,
        reply: HelixReply,
    ) -> (r: Action)
        requires
            old(self).wf(),
            old(cache).wf(),
        ensures
            final(self).wf(),
            final(cache).wf(),
            (final(self)@, final(cache)@, r@) == step(
                IntakeView { stage: StageView::Asked(kind, embed@), ..old(self)@ },
                old(cache)@,
                EventView::Helix(reply@),
            ),
    {
        if kind != Kind::Stream {
            if let Some(title) = cache.title(embed.link.as_str()) {
                return self.store(&embed, title, None);
            }
        }
        match reply {
            HelixReply::Titles(titles) => {
                if titles.len() == 0 {
                    self.begin(cache)
                } else {
                    let title = titles[0].clone();
                    if kind == Kind::Stream {
                        self.store_and_remember(cache, embed, title)
                    } else {
                        self.store(&embed, title, None)
                    }
                }
            },
            HelixReply::Unreachable(status) => {
                if kind == Kind::Stream {
                    self.store(&embed, String::new(), Some(Notice::RequestFailed))
                } else {
                    match status {
                        None => self.fail(Failure::NoStatus),
                        Some(503) => self.store(
                            &embed,
                            String::new(),
                            Some(Notice::ServiceUnavailable),
                        ),
                        Some(_) => self.store(&embed, String::new(), None),
                    }
                }
            },
            HelixReply::Refused(status) => {
                let notice = match status {
                    429 => Some(Notice::TooManyRequests),
                    503 => Some(Notice::ServiceUnavailable),
                    _ => None,
                };
                self.store(&embed, String::new(), notice)
            },
            HelixReply::Garbled => self.store(&embed, String::new(), None),
            HelixReply::Broken => self.fail(Failure::BrokenRequest),
        }
    }

    /// Takes what came of the last action and tells what to do next.
    pub fn step(&mut self, cache: &mut Cache, event: Event) -> (r: Action)
        requires
            old(self).wf(),
            old(cache).wf(),
            accepts(old(self)@, event@),
        ensures
            final(self).wf(),
            final(cache).wf(),
            (final(self)@, final(cache)@, r@) == step(old(self)@, old(cache)@, event@),
    {
        let mut stage = Stage::Over;
        std::mem::swap(&mut stage, &mut self.stage);
        match (stage, event) {
            (Stage::Asked(kind, embed), Event::Helix(reply)) => self.on_helix(
                cache,
                kind,
                embed,
                reply,
            ),
            (Stage::Asked(_, embed), Event::OembedUnreachable) => self.store(
                &embed,
                String::new(),
                Some(Notice::RequestFailed),
            ),
            (Stage::Asked(_, embed), Event::OembedStatus(200)) => {
                self.stage = Stage::Reading(embed);
                Action::ReadOembed
            },
            (Stage::Reading(embed), Event::OembedBody(Some(body))) => {
                let named = Embed {
                    link: embed.link,
                    platform: embed.platform,
                    channel: body.author_name,
                };
                self.store_and_remember(cache, named, body.title)
            },
            (Stage::Reading(_), Event::OembedBody(None)) => self.fail(Failure::BadOembed),
            _ => self.begin(cache),
        }
    }
}

} // verus!
