//! What holds of texts, links and addresses.

use crate::embed::{embed_of, kind_of, lowercase, Kind};
use crate::links::{
    are_captures, captured_at, embed_at, found_at, is_id_char, is_space, is_tag, link_text, match_links,
    repeats_lose_nothing, reveal_tags, stored_tag, strims_is_told_by_tag, without_repeats,
};
use crate::text::{holds_text, split_is_unique, stands_at};
use vstd::prelude::*;

verus! {

/// A text stands in another if and only if the other is that text with something before and
/// something behind it.
pub proof fn text_is_held(s: Seq<char>, needle: Seq<char>)
    ensures
        holds_text(s, needle) <==> exists|a: Seq<char>, b: Seq<char>| s == #[trigger] (a + needle
            + b),
{
    if holds_text(s, needle) {
        let i = choose|i: int| stands_at(s, needle, i);
        let a = s.take(i);
        let b = s.skip(i + needle.len());
        assert(s =~= a + s.subrange(i, i + needle.len()) + b);
        assert(s == a + needle + b);
    }
    if exists|a: Seq<char>, b: Seq<char>| s == #[trigger] (a + needle + b) {
        let (a, b) = choose|a: Seq<char>, b: Seq<char>| s == #[trigger] (a + needle + b);
        assert(s.subrange(a.len() as int, a.len() as int + needle.len()) =~= needle);
        assert(stands_at(s, needle, a.len() as int));
    }
}

/// Nothing is left out of a list in which no item is the same as the one right before it.
pub proof fn unrepeated_is_kept(s: Seq<Seq<char>>)
    requires
        forall|i: int| 0 < i < s.len() ==> s[i - 1] != #[trigger] s[i],
    ensures
        without_repeats(s) == s,
    decreases s.len(),
{
    if s.len() > 0 {
        unrepeated_is_kept(s.drop_last());
        if s.len() >= 2 {
            assert(s[s.len() - 1 - 1] != s[s.len() - 1]);
        }
        assert(without_repeats(s) =~= s);
    }
}

/// Of an item that stands twice side by side one is left out, wherever the two stand.
pub proof fn repeat_is_left_out(a: Seq<Seq<char>>, x: Seq<char>, b: Seq<Seq<char>>)
    ensures
        without_repeats(a + seq![x, x] + b) == without_repeats(a + seq![x] + b),
    decreases b.len(),
{
    let two = a + seq![x, x] + b;
    let one = a + seq![x] + b;
    if b.len() == 0 {
        assert(two.drop_last() =~= one);
    } else {
        repeat_is_left_out(a, x, b.drop_last());
        assert(two.drop_last() =~= a + seq![x, x] + b.drop_last());
        assert(one.drop_last() =~= a + seq![x] + b.drop_last());
        assert(two.last() == one.last());
        assert(two[two.len() - 2] == one[one.len() - 2]);
    }
}

/// Two lists can be freed of repeats one by one if the second does not begin as the first ends.
pub proof fn unequal_lists_are_freed_one_by_one(a: Seq<Seq<char>>, b: Seq<Seq<char>>)
    requires
        a.len() > 0,
        b.len() > 0,
        a.last() != b[0],
    ensures
        without_repeats(a + b) == without_repeats(a) + without_repeats(b),
    decreases b.len(),
{
    let s = a + b;
    if b.len() == 1 {
        assert(s.drop_last() =~= a);
        assert(b.drop_last() =~= seq![]);
        assert(without_repeats(b.drop_last()) =~= seq![]);
        assert(without_repeats(b) =~= seq![b[0]]);
        assert(s[s.len() - 2] == a.last());
        assert(without_repeats(s) =~= without_repeats(a) + without_repeats(b));
    } else {
        unequal_lists_are_freed_one_by_one(a, b.drop_last());
        assert(s.drop_last() =~= a + b.drop_last());
        assert(s[s.len() - 2] == b[b.len() - 2]);
        assert(s.last() == b.last());
        assert(without_repeats(s) =~= without_repeats(a) + without_repeats(b));
    }
}

/// Of each match one link is taken: the whole link, unless it holds the text that marks strims.gg;
/// then it is that text, a slash and the id.
pub proof fn link_is_taken(found: Seq<Seq<Option<Seq<char>>>>, i: int, link: Seq<char>, id: Seq<char>)
    requires
        0 <= i < found.len(),
        found[i].len() == 5,
        found[i][2] == Some(link),
        found[i][4] == Some(id),
    ensures
        match_links(found).len() == found.len(),
        (exists|a: Seq<char>, b: Seq<char>| link == #[trigger] (a + "strims.gg/angelthump"@ + b))
            ==> match_links(found)[i] == "strims.gg/angelthump"@ + seq!['/'] + id,
        !(exists|a: Seq<char>, b: Seq<char>| link == #[trigger] (a + "strims.gg/angelthump"@ + b))
            ==> match_links(found)[i] == link,
{
    text_is_held(link, "strims.gg/angelthump"@);
}

/// The tags with a mark are stored as they are, and those of strims.gg without the scheme.
pub proof fn tags_are_stored()
    ensures
        stored_tag("#twitch"@) == "#twitch"@,
        stored_tag("#twitch-vod"@) == "#twitch-vod"@,
        stored_tag("#twitch-clip"@) == "#twitch-clip"@,
        stored_tag("#youtube"@) == "#youtube"@,
        stored_tag("strims.gg/angelthump"@) == "strims.gg/angelthump"@,
        stored_tag("http://strims.gg/angelthump"@) == "strims.gg/angelthump"@,
        stored_tag("https://strims.gg/angelthump"@) == "strims.gg/angelthump"@,
{
    reveal_tags();
    assert("#twitch"@[0] == '#' && "#twitch-vod"@[0] == '#' && "#twitch-clip"@[0] == '#'
        && "#youtube"@[0] == '#');
    assert("https://strims.gg/angelthump"@[0] == 'h' && "http://strims.gg/angelthump"@[0] == 'h');
}

/// The first character of a tag tells how it is stored.
proof fn mark_tells_how_stored(tag: Seq<char>)
    requires
        is_tag(tag),
    ensures
        tag[0] == '#' ==> stored_tag(tag) == tag,
        tag[0] != '#' ==> stored_tag(tag) == "strims.gg/angelthump"@,
{
    reveal_tags();
    tags_are_stored();
}

/// An embed that begins the text or stands behind white space, and that has nothing or an ASCII
/// character that cannot be part of an id behind it, is captured, if its id ends with a word
/// character: its link is stored, one to strims.gg without the scheme.
pub proof fn set_off_embed_is_captured(
    front: Seq<char>,
    tag: Seq<char>,
    id: Seq<char>,
    rest: Seq<char>,
    found: Seq<Seq<Option<Seq<char>>>>,
)
    requires
        front.len() == 0 || front.last() == ' ' || ('\t' <= front.last() && front.last() <= '\r')
            || front.last() == '\u{85}' || front.last() == '\u{a0}' || front.last() == '\u{1680}' || (
        '\u{2000}' <= front.last() && front.last() <= '\u{200a}') || front.last() == '\u{2028}'
            || front.last() == '\u{2029}' || front.last() == '\u{202f}' || front.last()
            == '\u{205f}' || front.last() == '\u{3000}',
        tag == "#twitch"@ || tag == "#twitch-vod"@ || tag == "#twitch-clip"@ || tag == "#youtube"@
            || tag == "https://strims.gg/angelthump"@ || tag == "http://strims.gg/angelthump"@
            || tag == "strims.gg/angelthump"@,
        3 <= id.len() <= 64,
        forall|i: int|
            0 <= i < id.len() ==> ('A' <= #[trigger] id[i] && id[i] <= 'z') || ('0' <= id[i] && id[i]
                <= '9') || id[i] == '_' || id[i] == '-',
        ('A' <= id.last() && id.last() <= 'Z') || ('a' <= id.last() && id.last() <= 'z') || ('0'
            <= id.last() && id.last() <= '9') || id.last() == '_',
        rest.len() > 0 ==> rest[0] <= '\u{7f}' && !('A' <= rest[0] && rest[0] <= 'z') && !('0'
            <= rest[0] && rest[0] <= '9') && rest[0] != '-',
        are_captures(front + (tag + seq!['/'] + id) + rest, found),
    ensures
        tag[0] == '#' ==> without_repeats(match_links(found)).contains(tag + seq!['/'] + id),
        tag[0] != '#' ==> without_repeats(match_links(found)).contains(
            "strims.gg/angelthump"@ + seq!['/'] + id,
        ),
{
    let link = tag + seq!['/'] + id;
    let text = front + link + rest;
    let j = front.len() as int;
    mark_tells_how_stored(tag);
    let at = choose|at: Seq<int>| captured_at(text, found, at);
    assert(text.subrange(j, j + link.len()) =~= link);
    if j > 0 {
        assert(text[j - 1] == front.last());
    }
    if rest.len() > 0 {
        assert(text[j + link.len()] == rest[0]);
    }
    assert(embed_at(text, j, tag, id));
    let (i, long) = choose|i: int, long: Seq<char>|
        {
            &&& 0 <= i < found.len()
            &&& at[i] == j
            &&& id.len() <= long.len()
            &&& #[trigger] found_at(text, found[i], j, tag, long)
        };
    let longer = link_text(tag, long);
    assert(text.subrange(j, j + longer.len()) == longer);
    if long.len() > id.len() {
        assert(is_id_char(long[id.len() as int]));
        assert(longer[link.len() as int] == long[id.len() as int]);
        assert(longer[link.len() as int] == text[j + link.len()]);
        assert(false);
    }
    assert(longer =~= link);
    assert(long =~= longer.skip(tag.len() as int + 1));
    assert(id =~= link.skip(tag.len() as int + 1));
    strims_is_told_by_tag(tag, id);
    assert(match_links(found)[i] == link_text(stored_tag(tag), id));
    repeats_lose_nothing(match_links(found), match_links(found)[i]);
}

/// Every link that is captured is a tag, a slash and an id of 3 to 64 characters, and the tag and
/// the id stand in the text that way, at its beginning or behind white space, and where a word ends
/// or begins.
pub proof fn only_embeds_are_captured(
    text: Seq<char>,
    found: Seq<Seq<Option<Seq<char>>>>,
    link: Seq<char>,
) -> (r: (int, Seq<char>, Seq<char>))
    requires
        are_captures(text, found),
        without_repeats(match_links(found)).contains(link),
    ensures
        ({
            let (j, tag, id) = r;
            &&& tag == "#twitch"@ || tag == "#twitch-vod"@ || tag == "#twitch-clip"@ || tag
                == "#youtube"@ || tag == "https://strims.gg/angelthump"@ || tag
                == "http://strims.gg/angelthump"@ || tag == "strims.gg/angelthump"@
            &&& 3 <= id.len() <= 64
            &&& forall|i: int|
                0 <= i < id.len() ==> ('A' <= #[trigger] id[i] && id[i] <= 'z') || ('0' <= id[i]
                    && id[i] <= '9') || id[i] == '-'
            &&& tag[0] == '#' ==> link == tag + seq!['/'] + id
            &&& tag[0] != '#' ==> link == "strims.gg/angelthump"@ + seq!['/'] + id
            &&& 0 <= j
            &&& j + tag.len() + 1 + id.len() <= text.len()
            &&& text.subrange(j, j + tag.len() + 1 + id.len()) == tag + seq!['/'] + id
            &&& ({
                let c = id.last();
                let end = j + tag.len() + 1 + id.len();
                let word = ('A' <= c && c <= 'Z') || ('a' <= c && c <= 'z') || ('0' <= c && c
                    <= '9') || c == '_';
                &&& end == text.len() ==> word
                &&& end < text.len() && text[end] <= '\u{7f}' ==> word != (('A' <= text[end]
                    && text[end] <= 'Z') || ('a' <= text[end] && text[end] <= 'z') || ('0'
                    <= text[end] && text[end] <= '9') || text[end] == '_')
            })
            &&& j > 0 && text[j - 1] <= '\u{7f}' ==> text[j - 1] == ' ' || ('\t' <= text[j - 1]
                && text[j - 1] <= '\r')
        }),
{
    let links = match_links(found);
    let at = choose|at: Seq<int>| captured_at(text, found, at);
    repeats_lose_nothing(links, link);
    let k = choose|k: int| 0 <= k < links.len() && links[k] == link;
    let (tag, id) = choose|tag: Seq<char>, id: Seq<char>| found_at(text, found[k], at[k], tag, id);
    assert(found_at(text, found[k], at[k], tag, id));
    strims_is_told_by_tag(tag, id);
    assert(links[k] == link_text(stored_tag(tag), id));
    assert forall|i: int| 0 <= i < id.len() implies ('A' <= #[trigger] id[i] && id[i] <= 'z') || (
    '0' <= id[i] && id[i] <= '9') || id[i] == '-' by {
        assert(is_id_char(id[i]));
    }
    mark_tells_how_stored(tag);
    (at[k], tag, id)
}

/// An embed with nothing before and nothing behind it, whose id ends with a word character, is
/// captured whole, and nothing else is.
pub proof fn lone_embed_is_captured(
    tag: Seq<char>,
    id: Seq<char>,
    found: Seq<Seq<Option<Seq<char>>>>,
)
    requires
        tag == "#twitch"@ || tag == "#twitch-vod"@ || tag == "#twitch-clip"@ || tag == "#youtube"@
            || tag == "strims.gg/angelthump"@,
        3 <= id.len() <= 64,
        forall|i: int|
            0 <= i < id.len() ==> ('A' <= #[trigger] id[i] && id[i] <= 'z') || ('0' <= id[i] && id[i]
                <= '9') || id[i] == '_' || id[i] == '-',
        ('A' <= id.last() && id.last() <= 'Z') || ('a' <= id.last() && id.last() <= 'z') || ('0'
            <= id.last() && id.last() <= '9') || id.last() == '_',
        are_captures(tag + seq!['/'] + id, found),
    ensures
        without_repeats(match_links(found)) == seq![tag + seq!['/'] + id],
{
    let text = tag + seq!['/'] + id;
    reveal_tags();
    tags_are_stored();
    let at = choose|at: Seq<int>| captured_at(text, found, at);
    assert(text.subrange(0, text.len() as int) =~= text);
    assert(embed_at(text, 0, tag, id));
    let (i, long) = choose|i: int, long: Seq<char>|
        {
            &&& 0 <= i < found.len()
            &&& at[i] == 0
            &&& id.len() <= long.len()
            &&& #[trigger] found_at(text, found[i], 0, tag, long)
        };
    assert(long =~= id) by {
        assert(text.subrange(0, link_text(tag, long).len() as int) == link_text(tag, long));
        assert(link_text(tag, long).len() == text.len());
        assert(link_text(tag, long) =~= text);
        assert(long =~= text.skip(tag.len() as int + 1));
        assert(id =~= text.skip(tag.len() as int + 1));
    }
    assert forall|k: int| 0 <= k < text.len() implies !is_space(#[trigger] text[k]) by {
        if k > tag.len() {
            assert(is_id_char(id[k - tag.len() - 1]));
        }
    }
    assert forall|k: int| 0 <= k < found.len() implies #[trigger] at[k] == 0 by {
        let (t, d) = choose|t: Seq<char>, d: Seq<char>| found_at(text, found[k], at[k], t, d);
        assert(found_at(text, found[k], at[k], t, d));
        if at[k] != 0 {
            assert(is_space(text[at[k] - 1]));
        }
    }
    assert(found.len() == 1) by {
        if found.len() >= 2 {
            assert(at[0] < at[1]);
        }
    }
    assert(i == 0);
    strims_is_told_by_tag(tag, id);
    assert(match_links(found)[0] == text);
    assert(match_links(found) =~= seq![text]);
    unrepeated_is_kept(match_links(found));
}

/// The platform of a link is what stands before the first slash without the first character, or
/// with it if that is strims.gg; the channel is all that stands behind that slash.
pub proof fn link_says(head: Seq<char>, channel: Seq<char>)
    requires
        !head.contains('/'),
    ensures
        embed_of(head + seq!['/'] + channel).link == head + seq!['/'] + channel,
        embed_of(head + seq!['/'] + channel).channel == channel,
        (exists|a: Seq<char>, b: Seq<char>| head == #[trigger] (a + "strims.gg"@ + b)) ==> embed_of(
            head + seq!['/'] + channel,
        ).platform == head,
        !(exists|a: Seq<char>, b: Seq<char>| head == #[trigger] (a + "strims.gg"@ + b)) ==> embed_of(
            head + seq!['/'] + channel,
        ).platform == head.skip(1),
{
    split_is_unique(head + seq!['/'] + channel, '/', head, channel);
    text_is_held(head, "strims.gg"@);
}

/// Which platform is asked where.
pub proof fn platforms_are_asked(platform: Seq<char>)
    ensures
        kind_of(platform) == Kind::Stream <==> platform == "twitch"@,
        kind_of(platform) == Kind::Video <==> platform == "twitch-vod"@,
        kind_of(platform) == Kind::Clip <==> platform == "twitch-clip"@,
        kind_of(platform) == Kind::Youtube <==> platform == "youtube"@,
        kind_of(platform) == Kind::Unasked <==> platform != "twitch"@ && platform != "twitch-vod"@
            && platform != "twitch-clip"@ && platform != "youtube"@,
{
    reveal_strlit("twitch");
    reveal_strlit("twitch-vod");
    reveal_strlit("twitch-clip");
    reveal_strlit("youtube");
    assert("twitch"@.len() == 6 && "twitch-vod"@.len() == 10 && "twitch-clip"@.len() == 11
        && "youtube"@.len() == 7);
}

/// In small letters each capital is the letter 32 further on, and every other character stays.
pub proof fn capitals_become_small(s: Seq<char>)
    ensures
        lowercase(s).len() == s.len(),
        forall|i: int|
            0 <= i < s.len() && 'A' <= s[i] && s[i] <= 'Z' ==> (#[trigger] lowercase(s)[i]) as int
                == s[i] as int + 32,
        forall|i: int|
            0 <= i < s.len() && !('A' <= s[i] && s[i] <= 'Z') ==> #[trigger] lowercase(s)[i]
                == s[i],
        lowercase(lowercase(s)) == lowercase(s),
{
    assert(lowercase(lowercase(s)) =~= lowercase(s));
}

} // verus!
