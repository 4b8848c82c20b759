//! What a link says: the platform, the channel, and where its data is asked for.

use crate::links::{
    is_id, is_id_char, is_stored_link, is_tag, link_text, reveal_tags, stored_tag, STRIMS_HOST,
    STRIMS_TAG,
};
use crate::text::{
    before, behind, chars_of, contains_text, holds_text, same_text, split_char, split_is_unique, stands_at,
};
use vstd::prelude::*;
use vstd::utf8::is_ascii_chars;

verus! {

/// Where the data of an embed is asked for.
#[derive(Clone, Copy, Debug, PartialEq, Eq, Structural)]
pub enum Kind {
    /// A live stream on Twitch.
    Stream,
    /// A past broadcast on Twitch.
    Video,
    /// A clip on Twitch.
    Clip,
    /// A video on YouTube.
    Youtube,
    /// A platform that is not asked.
    Unasked,
}

/// A link and what it says.
#[derive(Debug)]
pub struct Embed {
    pub link: String,
    pub platform: String,
    pub channel: String,
}

/// The contents of an [`Embed`].
pub struct EmbedView {
    pub link: Seq<char>,
    pub platform: Seq<char>,
    pub channel: Seq<char>,
}

impl View for Embed {
    type V = EmbedView;

    open spec fn view(&self) -> EmbedView {
        EmbedView { link: self.link@, platform: self.platform@, channel: self.channel@ }
    }
}

/// The platform of a link: what stands before the first slash, without the mark in front of it
/// unless it is strims.gg, which has none.
pub open spec fn platform_of(link: Seq<char>) -> Seq<char> {
    let head = before(link, '/');
    if holds_text(head, STRIMS_HOST@) {
        head
    } else {
        head.skip(1)
    }
}

/// The channel of a link: what stands behind the first slash.
pub open spec fn channel_of(link: Seq<char>) -> Seq<char> {
    behind(link, '/')
}

/// What a link says.
pub open spec fn embed_of(link: Seq<char>) -> EmbedView {
    EmbedView { link, platform: platform_of(link), channel: channel_of(link) }
}

/// A link that has a platform and a channel.
pub open spec fn is_readable(link: Seq<char>) -> bool {
    &&& link.contains('/')
    &&& !holds_text(before(link, '/'), STRIMS_HOST@) ==> link[0] != '/' && link[0] <= '\u{7f}'
}

/// Where the data of a platform is asked for.
pub open spec fn kind_of(platform: Seq<char>) -> Kind {
    if platform == "twitch"@ {
        Kind::Stream
    } else if platform == "twitch-vod"@ {
        Kind::Video
    } else if platform == "twitch-clip"@ {
        Kind::Clip
    } else if platform == "youtube"@ {
        Kind::Youtube
    } else {
        Kind::Unasked
    }
}

/// Reads a link.
pub fn read_link(link: &str) -> (r: Embed)
    requires
        is_readable(link@),
    ensures
        r@ == embed_of(link@),
{
    let (head, channel) = split_char(link, '/').unwrap();
    let platform = if contains_text(head, STRIMS_HOST) {
        head
    } else {
        proof {
            split_is_unique(link@, '/', seq![], seq![]);
            assert(head@.len() > 0);
        }
        let n: usize = head.unicode_len();
        head.substring_char(1, n)
    };
    Embed { link: link.to_owned(), platform: platform.to_owned(), channel: channel.to_owned() }
}

/// Tells where the data of a platform is asked for.
pub fn kind(platform: &str) -> (r: Kind)
    ensures
        r == kind_of(platform@),
{
    if same_text(platform, "twitch") {
        Kind::Stream
    } else if same_text(platform, "twitch-vod") {
        Kind::Video
    } else if same_text(platform, "twitch-clip") {
        Kind::Clip
    } else if same_text(platform, "youtube") {
        Kind::Youtube
    } else {
        Kind::Unasked
    }
}

/// A character with an ASCII capital made small.
pub open spec fn lower_char(c: char) -> char {
    if 'A' <= c && c <= 'Z' {
        (c as u32 + 32) as char
    } else {
        c
    }
}

/// A text of ASCII in small letters.
pub open spec fn lowercase(s: Seq<char>) -> Seq<char> {
    s.map_values(|c: char| lower_char(c))
}

/// The small letters.
const SMALL_LETTERS: &'static str = "abcdefghijklmnopqrstuvwxyz";

/// The small letters stand in the order of the capitals.
proof fn small_letters_in_order()
    ensures
        SMALL_LETTERS@.len() == 26,
        forall|k: int| 0 <= k < 26 ==> #[trigger] SMALL_LETTERS@[k] == lower_char(
            ('A' as u32 + k) as char,
        ),
{
    reveal_strlit("abcdefghijklmnopqrstuvwxyz");
    assert(SMALL_LETTERS@ =~= seq![
        'a', 'b', 'c', 'd', 'e', 'f', 'g', 'h', 'i', 'j', 'k', 'l', 'm', 'n', 'o', 'p', 'q', 'r',
        's', 't', 'u', 'v', 'w', 'x', 'y', 'z',
    ]);
}

/// Puts a text of ASCII into small letters, as `str::to_lowercase` does.
pub(crate) fn to_lowercase(s: &str) -> (r: String)
    requires
        is_ascii_chars(s@),
    ensures
        r@ == lowercase(s@),
{
    proof {
        small_letters_in_order();
    }
    let chars = chars_of(s);
    let mut r = String::new();
    for i in 0..chars.len()
        invariant
            chars@ == s@,
            SMALL_LETTERS@.len() == 26,
            forall|k: int| 0 <= k < 26 ==> #[trigger] SMALL_LETTERS@[k] == lower_char(
                ('A' as u32 + k) as char,
            ),
            r@ == lowercase(s@).take(i as int),
    {
        let c = chars[i];
        if 'A' <= c && c <= 'Z' {
            let k: usize = (c as u32 - 'A' as u32) as usize;
            r.append(SMALL_LETTERS.substring_char(k, k + 1));
            assert(SMALL_LETTERS@[k as int] == lower_char(c));
        } else {
            r.append(s.substring_char(i, i + 1));
        }
        assert(r@ =~= lowercase(s@).take(i + 1));
    }
    assert(lowercase(s@).take(s@.len() as int) =~= lowercase(s@));
    r
}

/// What the names of the platforms hold.
proof fn reveal_platforms()
    ensures
        "twitch"@ =~= seq!['t', 'w', 'i', 't', 'c', 'h'],
        "twitch-vod"@ =~= seq!['t', 'w', 'i', 't', 'c', 'h', '-', 'v', 'o', 'd'],
        "twitch-clip"@ =~= seq!['t', 'w', 'i', 't', 'c', 'h', '-', 'c', 'l', 'i', 'p'],
        "youtube"@ =~= seq!['y', 'o', 'u', 't', 'u', 'b', 'e'],
        "strims.gg"@ == STRIMS_HOST@,
        "angelthump/"@ =~= seq!['a', 'n', 'g', 'e', 'l', 't', 'h', 'u', 'm', 'p', '/'],
{
    reveal_strlit("twitch");
    reveal_strlit("twitch-vod");
    reveal_strlit("twitch-clip");
    reveal_strlit("youtube");
    reveal_strlit("angelthump/");
}

/// The platforms of embeds are these: that of a stored tag with a mark is the tag without it and
/// the channel is the id; that of strims.gg is the host and the channel names the service too.
pub proof fn stored_link_is_read(tag: Seq<char>, id: Seq<char>)
    requires
        is_tag(tag),
        is_id(id),
    ensures
        is_readable(link_text(stored_tag(tag), id)),
        is_ascii_chars(link_text(stored_tag(tag), id)),
        tag == "#twitch"@ ==> embed_of(link_text(stored_tag(tag), id)) == (EmbedView {
            link: link_text(tag, id),
            platform: "twitch"@,
            channel: id,
        }),
        tag == "#twitch-vod"@ ==> embed_of(link_text(stored_tag(tag), id)) == (EmbedView {
            link: link_text(tag, id),
            platform: "twitch-vod"@,
            channel: id,
        }),
        tag == "#twitch-clip"@ ==> embed_of(link_text(stored_tag(tag), id)) == (EmbedView {
            link: link_text(tag, id),
            platform: "twitch-clip"@,
            channel: id,
        }),
        tag == "#youtube"@ ==> embed_of(link_text(stored_tag(tag), id)) == (EmbedView {
            link: link_text(tag, id),
            platform: "youtube"@,
            channel: id,
        }),
        stored_tag(tag) == STRIMS_TAG@ ==> embed_of(link_text(stored_tag(tag), id)) == (EmbedView {
            link: link_text(STRIMS_TAG@, id),
            platform: STRIMS_HOST@,
            channel: "angelthump/"@ + id,
        }),
{
    reveal_tags();
    reveal_platforms();
    let stored = stored_tag(tag);
    let link = link_text(stored, id);
    assert forall|i: int| 0 <= i < link.len() implies '\0' <= #[trigger] link[i] <= '\u{7f}' by {
        if i > stored.len() {
            assert(is_id_char(id[i - stored.len() - 1]));
        }
    }
    if stored == STRIMS_TAG@ {
        assert(link =~= STRIMS_HOST@ + seq!['/'] + ("angelthump/"@ + id));
        split_is_unique(link, '/', STRIMS_HOST@, "angelthump/"@ + id);
        assert(STRIMS_HOST@.subrange(0, STRIMS_HOST@.len() as int) =~= STRIMS_HOST@);
        assert(stands_at(STRIMS_HOST@, STRIMS_HOST@, 0));
    } else {
        split_is_unique(link, '/', stored, id);
        assert forall|i: int| !stands_at(stored, STRIMS_HOST@, i) by {
            if stands_at(stored, STRIMS_HOST@, i) {
                assert(stored.subrange(i, i + STRIMS_HOST@.len())[6] == stored[i + 6]);
                assert(false);
            }
        }
        if tag == "#twitch"@ {
            assert(stored.skip(1) =~= "twitch"@);
        } else if tag == "#twitch-vod"@ {
            assert(stored.skip(1) =~= "twitch-vod"@);
        } else if tag == "#twitch-clip"@ {
            assert(stored.skip(1) =~= "twitch-clip"@);
        } else {
            assert(stored.skip(1) =~= "youtube"@);
        }
    }
}

/// A stored link can be put together again from its platform and its channel.
pub proof fn link_is_put_together(link: Seq<char>)
    requires
        is_stored_link(link),
    ensures
        kind_of(platform_of(link)) == Kind::Unasked ==> link == platform_of(link) + seq!['/']
            + channel_of(link),
        kind_of(platform_of(link)) != Kind::Unasked ==> link == seq!['#'] + platform_of(link)
            + seq!['/'] + channel_of(link),
{
    let (tag, id) = choose|tag: Seq<char>, id: Seq<char>|
        is_tag(tag) && is_id(id) && link == #[trigger] link_text(stored_tag(tag), id);
    reveal_tags();
    reveal_platforms();
    stored_link_is_read(tag, id);
    if stored_tag(tag) == STRIMS_TAG@ {
        assert(STRIMS_HOST@ != "twitch"@) by {
            assert(STRIMS_HOST@[0] == 's');
        }
        assert(link =~= platform_of(link) + seq!['/'] + channel_of(link));
    } else {
        assert(link =~= seq!['#'] + platform_of(link) + seq!['/'] + channel_of(link));
    }
}

} // verus!
