//! The links of a chat message: which texts are embeds, how a message's embeds are captured, and
//! which links are stored for them.

use crate::text::{contains_text, holds_text, stands_at};
use regex::Regex;
use vstd::prelude::*;

verus! {

/// What an embed looks like. Group 2 is the link, group 3 its tag and group 4 its id.
pub const EMBED_PATTERN: &'static str = r"(^|\s)((#twitch|#twitch-vod|#twitch-clip|#youtube|(?:https://|http://|)strims\.gg/angelthump)/([A-z0-9_\-]{3,64}))\b";

/// The text by which a link to strims.gg is told from the others.
pub const STRIMS_TAG: &'static str = "strims.gg/angelthump";

/// The text by which the platform strims.gg is told from the others.
pub const STRIMS_HOST: &'static str = "strims.gg";

/// The tags that an embed can begin with.
pub open spec fn is_tag(tag: Seq<char>) -> bool {
    ||| tag == "#twitch"@
    ||| tag == "#twitch-vod"@
    ||| tag == "#twitch-clip"@
    ||| tag == "#youtube"@
    ||| tag == "https://strims.gg/angelthump"@
    ||| tag == "http://strims.gg/angelthump"@
    ||| tag == "strims.gg/angelthump"@
}

/// The characters of an id. Between `Z` and `a` lie `[`, `\`, `]`, `^`, `_` and the backtick.
pub open spec fn is_id_char(c: char) -> bool {
    ('A' <= c && c <= 'z') || ('0' <= c && c <= '9') || c == '_' || c == '-'
}

/// What can stand behind the tag and the slash of an embed.
pub open spec fn is_id(id: Seq<char>) -> bool {
    &&& 3 <= id.len() <= 64
    &&& forall|i: int| 0 <= i < id.len() ==> is_id_char(#[trigger] id[i])
}

/// The link that a tag and an id make.
pub open spec fn link_text(tag: Seq<char>, id: Seq<char>) -> Seq<char> {
    tag + seq!['/'] + id
}

/// White space.
pub open spec fn is_space(c: char) -> bool {
    ||| '\t' <= c && c <= '\r'
    ||| c == ' '
    ||| c == '\u{85}'
    ||| c == '\u{a0}'
    ||| c == '\u{1680}'
    ||| '\u{2000}' <= c && c <= '\u{200a}'
    ||| c == '\u{2028}'
    ||| c == '\u{2029}'
    ||| c == '\u{202f}'
    ||| c == '\u{205f}'
    ||| c == '\u{3000}'
}

/// The word characters among the ASCII characters.
pub open spec fn is_ascii_word(c: char) -> bool {
    ('A' <= c && c <= 'Z') || ('a' <= c && c <= 'z') || ('0' <= c && c <= '9') || c == '_'
}

/// The characters of which it is told here whether they are word characters: ASCII, and white
/// space, which is none.
pub open spec fn is_familiar(c: char) -> bool {
    c <= '\u{7f}' || is_space(c)
}

/// The text ends at `end`, or it is told here whether a word goes on there.
pub open spec fn is_familiar_at(text: Seq<char>, end: int) -> bool {
    end < text.len() ==> is_familiar(text[end])
}

/// An embed of this tag and id stands in `text` at position `j`: the text begins there or white
/// space stands before it, and a word begins or ends behind it. What stands behind it is only
/// looked at if it is familiar.
pub open spec fn embed_stands(text: Seq<char>, j: int, tag: Seq<char>, id: Seq<char>) -> bool {
    let end = j + link_text(tag, id).len();
    &&& is_tag(tag)
    &&& is_id(id)
    &&& stands_at(text, link_text(tag, id), j)
    &&& j == 0 || is_space(text[j - 1])
    &&& is_familiar_at(text, end) ==> is_ascii_word(id.last()) != (end < text.len()
        && is_ascii_word(text[end]))
}

/// An embed of this tag and id stands in `text` at position `j`, and what stands behind it is
/// familiar.
pub open spec fn embed_at(text: Seq<char>, j: int, tag: Seq<char>, id: Seq<char>) -> bool {
    embed_stands(text, j, tag, id) && is_familiar_at(text, j + link_text(tag, id).len())
}

/// The groups of one match of [`EMBED_PATTERN`] hold this tag and id.
pub open spec fn groups_hold(groups: Seq<Option<Seq<char>>>, tag: Seq<char>, id: Seq<char>) -> bool {
    &&& groups.len() == 5
    &&& groups[2] == Some(link_text(tag, id))
    &&& groups[3] == Some(tag)
    &&& groups[4] == Some(id)
}

/// A match of [`EMBED_PATTERN`] in `text` holds this tag and id, and its link stands at `j`.
pub open spec fn found_at(
    text: Seq<char>,
    groups: Seq<Option<Seq<char>>>,
    j: int,
    tag: Seq<char>,
    id: Seq<char>,
) -> bool {
    groups_hold(groups, tag, id) && embed_stands(text, j, tag, id)
}

/// Places in a text, one behind the other.
pub open spec fn is_ascending(at: Seq<int>) -> bool {
    forall|a: int, b: int| 0 <= a < b < at.len() ==> at[a] < at[b]
}

/// The matches are embeds that stand in the text, each at its own place, in the order of their
/// places.
pub open spec fn stand_in_order(
    text: Seq<char>,
    found: Seq<Seq<Option<Seq<char>>>>,
    at: Seq<int>,
) -> bool {
    &&& at.len() == found.len()
    &&& is_ascending(at)
    &&& forall|i: int|
        0 <= i < found.len() ==> exists|tag: Seq<char>, id: Seq<char>|
            found_at(text, #[trigger] found[i], at[i], tag, id)
}

/// Every embed that stands in the text is matched at its place, with an id that is no shorter.
pub open spec fn none_is_missed(
    text: Seq<char>,
    found: Seq<Seq<Option<Seq<char>>>>,
    at: Seq<int>,
) -> bool {
    forall|j: int, tag: Seq<char>, id: Seq<char>|
        embed_at(text, j, tag, id) ==> exists|i: int, long: Seq<char>|
            {
                &&& 0 <= i < found.len()
                &&& at[i] == j
                &&& id.len() <= long.len()
                &&& #[trigger] found_at(text, found[i], j, tag, long)
            }
}

/// The matches are the embeds of the text, at these places.
pub open spec fn captured_at(
    text: Seq<char>,
    found: Seq<Seq<Option<Seq<char>>>>,
    at: Seq<int>,
) -> bool {
    stand_in_order(text, found, at) && none_is_missed(text, found, at)
}

/// The matches are the embeds of the text, in the order in which they stand there.
pub open spec fn are_captures(text: Seq<char>, found: Seq<Seq<Option<Seq<char>>>>) -> bool {
    exists|at: Seq<int>| captured_at(text, found, at)
}

/// The groups of every match of a pattern in a text, in the order of the matches.
pub uninterp spec fn captures(pattern: Seq<char>, text: Seq<char>) -> Seq<Seq<Option<Seq<char>>>>;

/// Calls `Regex::captures_iter` with the compiled pattern and hands out the text of each group
/// of each match.
///
/// Of its result it is claimed: it depends on the pattern and the text alone; the matches hold
/// embeds that stand in the text, each at its own place and in the order of their places; and
/// every embed that stands in the text is matched at its place, with an id that is no shorter.
/// It is not said which characters beyond ASCII are word characters, other than that white space
/// is none: so behind an embed such a character may or may not end it.
#[verifier::external_body]
fn match_groups(pattern: &str, text: &str) -> (r: Vec<Vec<Option<String>>>)
    requires
        pattern@ == EMBED_PATTERN@,
    ensures
        r.deep_view() == captures(pattern@, text@),
        are_captures(text@, r.deep_view()),
{
    Regex::new(pattern).unwrap().captures_iter(text).map(
        |m| m.iter().map(|g| g.map(|g| g.as_str().to_string())).collect(),
    ).collect()
}

/// The link that is stored for an embed: one to strims.gg without the scheme, any other as it is.
pub open spec fn stored_link(link: Seq<char>, id: Seq<char>) -> Seq<char> {
    if holds_text(link, STRIMS_TAG@) {
        link_text(STRIMS_TAG@, id)
    } else {
        link
    }
}

/// A match that a link can be taken from.
pub open spec fn has_link(groups: Seq<Option<Seq<char>>>) -> bool {
    &&& groups.len() > 2
    &&& groups[2] is Some
    &&& holds_text(groups[2].unwrap(), STRIMS_TAG@) ==> groups.len() > 4 && groups[4] is Some
}

/// The link that is stored for a match.
pub open spec fn match_link(groups: Seq<Option<Seq<char>>>) -> Seq<char> {
    stored_link(groups[2].unwrap(), groups[4].unwrap())
}

/// The links of a list of matches, one for each.
pub open spec fn match_links(found: Seq<Seq<Option<Seq<char>>>>) -> Seq<Seq<char>> {
    found.map_values(|groups: Seq<Option<Seq<char>>>| match_link(groups))
}

/// A list without the items that repeat the item right before them.
pub open spec fn without_repeats(s: Seq<Seq<char>>) -> Seq<Seq<char>>
    decreases s.len(),
{
    if s.len() == 0 {
        s
    } else if s.len() >= 2 && s[s.len() - 2] == s.last() {
        without_repeats(s.drop_last())
    } else {
        without_repeats(s.drop_last()).push(s.last())
    }
}

/// Takes the link out of one match.
fn link_of(groups: &Vec<Option<String>>) -> (r: String)
    requires
        has_link(groups.deep_view()),
    ensures
        r@ == match_link(groups.deep_view()),
{
    let full_link = groups[2].as_ref().unwrap();
    if contains_text(full_link.as_str(), STRIMS_TAG) {
        let id = groups[4].as_ref().unwrap();
        let mut link = STRIMS_TAG.to_owned();
        link.append("/");
        link.append(id.as_str());
        proof {
            reveal_strlit("/");
            assert("/"@ =~= seq!['/']);
        }
        link
    } else {
        full_link.clone()
    }
}

/// Takes the link out of every match.
pub fn links_of(found: &Vec<Vec<Option<String>>>) -> (r: Vec<String>)
    requires
        forall|i: int| 0 <= i < found@.len() ==> has_link(#[trigger] found.deep_view()[i]),
    ensures
        r.deep_view() == match_links(found.deep_view()),
{
    let mut r: Vec<String> = Vec::new();
    for i in 0..found.len()
        invariant
            forall|k: int| 0 <= k < found@.len() ==> has_link(#[trigger] found.deep_view()[k]),
            r.deep_view() == match_links(found.deep_view()).take(i as int),
    {
        assert(found.deep_view()[i as int] == found@[i as int].deep_view());
        let link = link_of(&found[i]);
        let ghost before_push = r.deep_view();
        r.push(link);
        assert(r.deep_view() =~= before_push.push(link@));
        assert(match_links(found.deep_view()).take(i + 1) =~= before_push.push(link@));
    }
    assert(match_links(found.deep_view()).take(found@.len() as int) =~= match_links(
        found.deep_view(),
    ));
    r
}

/// Leaves out the links that repeat the link right before them.
pub fn drop_repeats(links: Vec<String>) -> (r: Vec<String>)
    ensures
        r.deep_view() == without_repeats(links.deep_view()),
{
    let mut r: Vec<String> = Vec::new();
    for i in 0..links.len()
        invariant
            r.deep_view() == without_repeats(links.deep_view().take(i as int)),
    {
        let ghost all = links.deep_view();
        let ghost sofar = r.deep_view();
        assert(all.take(i + 1).drop_last() =~= all.take(i as int));
        if i == 0 || links[i - 1] != links[i] {
            r.push(links[i].clone());
            assert(r.deep_view() =~= sofar.push(all[i as int]));
        }
    }
    assert(links.deep_view().take(links@.len() as int) =~= links.deep_view());
    r
}

/// The tag that is stored for a tag: that of strims.gg without the scheme, any other as it is.
pub open spec fn stored_tag(tag: Seq<char>) -> Seq<char> {
    if tag == "https://strims.gg/angelthump"@ || tag == "http://strims.gg/angelthump"@ {
        STRIMS_TAG@
    } else {
        tag
    }
}

/// A link as it is stored: a stored tag, a slash and an id.
pub open spec fn is_stored_link(link: Seq<char>) -> bool {
    exists|tag: Seq<char>, id: Seq<char>|
        is_tag(tag) && is_id(id) && link == #[trigger] link_text(stored_tag(tag), id)
}

/// What the literals of this module hold.
pub(crate) proof fn reveal_tags()
    ensures
        "#twitch"@ =~= seq!['#', 't', 'w', 'i', 't', 'c', 'h'],
        "#twitch-vod"@ =~= seq!['#', 't', 'w', 'i', 't', 'c', 'h', '-', 'v', 'o', 'd'],
        "#twitch-clip"@ =~= seq!['#', 't', 'w', 'i', 't', 'c', 'h', '-', 'c', 'l', 'i', 'p'],
        "#youtube"@ =~= seq!['#', 'y', 'o', 'u', 't', 'u', 'b', 'e'],
        STRIMS_HOST@ =~= seq!['s', 't', 'r', 'i', 'm', 's', '.', 'g', 'g'],
        STRIMS_TAG@ =~= STRIMS_HOST@ + seq![
            '/', 'a', 'n', 'g', 'e', 'l', 't', 'h', 'u', 'm', 'p',
        ],
        "strims.gg/angelthump"@ == STRIMS_TAG@,
        "https://strims.gg/angelthump"@ =~= seq!['h', 't', 't', 'p', 's', ':', '/', '/']
            + STRIMS_TAG@,
        "http://strims.gg/angelthump"@ =~= seq!['h', 't', 't', 'p', ':', '/', '/'] + STRIMS_TAG@,
{
    reveal_strlit("#twitch");
    reveal_strlit("#twitch-vod");
    reveal_strlit("#twitch-clip");
    reveal_strlit("#youtube");
    reveal_strlit("strims.gg");
    reveal_strlit("strims.gg/angelthump");
    reveal_strlit("https://strims.gg/angelthump");
    reveal_strlit("http://strims.gg/angelthump");
}

/// Which links hold the text that marks strims.gg: those whose tag does.
pub(crate) proof fn strims_is_told_by_tag(tag: Seq<char>, id: Seq<char>)
    requires
        is_tag(tag),
        is_id(id),
    ensures
        stored_link(link_text(tag, id), id) == link_text(stored_tag(tag), id),
{
    reveal_tags();
    let link = link_text(tag, id);
    if tag[0] == '#' {
        assert forall|i: int| !stands_at(link, STRIMS_TAG@, i) by {
            if stands_at(link, STRIMS_TAG@, i) {
                assert(link.subrange(i, i + STRIMS_TAG@.len())[6] == link[i + 6]);
                assert(link[i + 6] == '.');
                if i + 6 > tag.len() {
                    assert(is_id_char(id[i + 6 - tag.len() - 1]));
                }
                assert(false);
            }
        }
    } else {
        let at = tag.len() - STRIMS_TAG@.len();
        assert(link.subrange(at, at + STRIMS_TAG@.len()) =~= STRIMS_TAG@);
        assert(stands_at(link, STRIMS_TAG@, at));
    }
}

/// Every item of a list without repeats is an item of the list, and the other way round.
pub proof fn repeats_lose_nothing(s: Seq<Seq<char>>, link: Seq<char>)
    ensures
        without_repeats(s).contains(link) <==> s.contains(link),
    decreases s.len(),
{
    if s.len() > 0 {
        repeats_lose_nothing(s.drop_last(), link);
        let kept = without_repeats(s.drop_last());
        assert(s =~= s.drop_last().push(s.last()));
        assert(s.contains(link) <==> s.drop_last().contains(link) || s.last() == link) by {
            if s.drop_last().contains(link) {
                let i = choose|i: int| 0 <= i < s.drop_last().len() && s.drop_last()[i] == link;
                assert(s[i] == link);
            }
        }
        if s.len() >= 2 && s[s.len() - 2] == s.last() {
            assert(s.drop_last()[s.len() - 2] == s.last());
        } else {
            assert(kept.push(s.last())[kept.len() as int] == s.last());
            if kept.contains(link) {
                let i = choose|i: int| 0 <= i < kept.len() && kept[i] == link;
                assert(kept.push(s.last())[i] == link);
            }
        }
    }
}

/// No link of a list without repeats is the same as the link right before it.
pub proof fn no_repeats_left(s: Seq<Seq<char>>)
    ensures
        s.len() > 0 ==> without_repeats(s).len() > 0 && without_repeats(s).last() == s.last(),
        forall|i: int|
            0 < i < without_repeats(s).len() ==> without_repeats(s)[i - 1]
                != #[trigger] without_repeats(s)[i],
    decreases s.len(),
{
    if s.len() > 0 {
        no_repeats_left(s.drop_last());
        if s.len() >= 2 {
            assert(s.drop_last().last() == s[s.len() - 2]);
        }
    }
}

/// The links hold the embed of this tag that stands in `text` at `j`, with an id that is no
/// shorter than `id`.
pub open spec fn embed_kept(
    text: Seq<char>,
    j: int,
    tag: Seq<char>,
    id: Seq<char>,
    links: Seq<Seq<char>>,
) -> bool {
    exists|long: Seq<char>|
        {
            &&& id.len() <= long.len() <= 64
            &&& stands_at(text, link_text(tag, long), j)
            &&& links.contains(#[trigger] link_text(stored_tag(tag), long))
        }
}

/// The links are those of embeds that stand in the text, each at its own place, in the order of
/// their places.
pub open spec fn links_in_order(text: Seq<char>, links: Seq<Seq<char>>, at: Seq<int>) -> bool {
    &&& at.len() == links.len()
    &&& is_ascending(at)
    &&& forall|i: int| 0 <= i < links.len() ==> is_link_at(text, #[trigger] links[i], at[i])
}

/// The link is stored for an embed that stands in the text at `j`.
pub open spec fn is_link_at(text: Seq<char>, link: Seq<char>, j: int) -> bool {
    exists|tag: Seq<char>, id: Seq<char>|
        embed_stands(text, j, tag, id) && link == #[trigger] link_text(stored_tag(tag), id)
}

/// The places of the items that are left in a list without repeats.
spec fn kept_places(s: Seq<Seq<char>>, at: Seq<int>) -> Seq<int>
    decreases s.len(),
{
    if s.len() == 0 {
        at
    } else if s.len() >= 2 && s[s.len() - 2] == s.last() {
        kept_places(s.drop_last(), at.drop_last())
    } else {
        kept_places(s.drop_last(), at.drop_last()).push(at.last())
    }
}

/// Leaving out repeats keeps links in their order.
proof fn repeats_keep_order(text: Seq<char>, s: Seq<Seq<char>>, at: Seq<int>)
    requires
        links_in_order(text, s, at),
    ensures
        links_in_order(text, without_repeats(s), kept_places(s, at)),
        forall|i: int|
            0 <= i < kept_places(s, at).len() ==> #[trigger] kept_places(s, at)[i] <= at.last(),
    decreases s.len(),
{
    if s.len() > 0 {
        let rest = s.drop_last();
        assert forall|i: int| 0 <= i < rest.len() implies is_link_at(
            text,
            #[trigger] rest[i],
            at.drop_last()[i],
        ) by {
            assert(is_link_at(text, s[i], at[i]));
        }
        repeats_keep_order(text, rest, at.drop_last());
        assert(is_link_at(text, s[s.len() - 1], at[s.len() - 1]));
    }
}

/// The matches of a text are links in the order in which they stand there.
proof fn matches_in_order(text: Seq<char>, found: Seq<Seq<Option<Seq<char>>>>, at: Seq<int>)
    requires
        captured_at(text, found, at),
    ensures
        links_in_order(text, match_links(found), at),
        forall|i: int| 0 <= i < found.len() ==> has_link(#[trigger] found[i]),
{
    assert forall|i: int| 0 <= i < found.len() implies has_link(#[trigger] found[i]) && is_link_at(
        text,
        match_links(found)[i],
        at[i],
    ) by {
        let (tag, id) = choose|tag: Seq<char>, id: Seq<char>|
            found_at(text, found[i], at[i], tag, id);
        strims_is_told_by_tag(tag, id);
        assert(match_links(found)[i] == link_text(stored_tag(tag), id));
    }
}

/// Captures the links of a message, in the order in which they stand there, without those that
/// repeat the link right before them.
pub fn capture_links(text: &str) -> (r: Vec<String>)
    ensures
        r.deep_view() == without_repeats(match_links(captures(EMBED_PATTERN@, text@))),
        are_captures(text@, captures(EMBED_PATTERN@, text@)),
        exists|at: Seq<int>| links_in_order(text@, r.deep_view(), at),
        forall|i: int| 0 <= i < r@.len() ==> is_stored_link(#[trigger] r.deep_view()[i]),
        forall|j: int, tag: Seq<char>, id: Seq<char>|
            embed_at(text@, j, tag, id) ==> embed_kept(text@, j, tag, id, r.deep_view()),
{
    let found = match_groups(EMBED_PATTERN, text);
    let ghost groups = found.deep_view();
    let ghost links = match_links(groups);
    let ghost at = choose|at: Seq<int>| captured_at(text@, groups, at);
    proof {
        matches_in_order(text@, groups, at);
    }
    let r = drop_repeats(links_of(&found));
    proof {
        repeats_keep_order(text@, links, at);
        let kept = kept_places(links, at);
        assert forall|i: int| 0 <= i < r@.len() implies is_stored_link(
            #[trigger] r.deep_view()[i],
        ) by {
            assert(is_link_at(text@, r.deep_view()[i], kept[i]));
        }
        assert forall|j: int, tag: Seq<char>, id: Seq<char>|
            embed_at(text@, j, tag, id) implies embed_kept(text@, j, tag, id, r.deep_view()) by {
            let (i, long) = choose|i: int, long: Seq<char>|
                {
                    &&& 0 <= i < groups.len()
                    &&& at[i] == j
                    &&& id.len() <= long.len()
                    &&& #[trigger] found_at(text@, groups[i], j, tag, long)
                };
            strims_is_told_by_tag(tag, long);
            assert(links[i] == link_text(stored_tag(tag), long));
            repeats_lose_nothing(links, links[i]);
        }
    }
    r
}

/// Two ascending lists of the same places are the same.
proof fn ascending_is_unique(a: Seq<int>, b: Seq<int>)
    requires
        is_ascending(a),
        is_ascending(b),
        forall|i: int| 0 <= i < a.len() ==> b.contains(#[trigger] a[i]),
        forall|i: int| 0 <= i < b.len() ==> a.contains(#[trigger] b[i]),
    ensures
        a == b,
    decreases a.len(),
{
    if a.len() == 0 {
        if b.len() > 0 {
            assert(a.contains(b[0]));
        }
        assert(a =~= b);
    } else {
        assert(b.contains(a[0]));
        let x = a[a.len() - 1];
        let y = b[b.len() - 1];
        assert(b.contains(x));
        assert(a.contains(y));
        assert(x == y);
        let c = a.drop_last();
        let d = b.drop_last();
        assert forall|i: int| 0 <= i < c.len() implies d.contains(#[trigger] c[i]) by {
            assert(b.contains(a[i]));
            let k = choose|k: int| 0 <= k < b.len() && b[k] == a[i];
            assert(d[k] == c[i]);
        }
        assert forall|i: int| 0 <= i < d.len() implies c.contains(#[trigger] d[i]) by {
            assert(a.contains(b[i]));
            let k = choose|k: int| 0 <= k < a.len() && a[k] == b[i];
            assert(c[k] == d[i]);
        }
        ascending_is_unique(c, d);
        assert(a =~= c.push(x));
        assert(b =~= d.push(y));
    }
}

/// A text of familiar characters.
pub open spec fn is_familiar_text(text: Seq<char>) -> bool {
    forall|i: int| 0 <= i < text.len() ==> is_familiar(#[trigger] text[i])
}

/// Of two lists of captures of a familiar text, each place of the first is one of the second, with
/// the same tag there and an id that is no shorter.
proof fn place_is_shared(
    text: Seq<char>,
    found: Seq<Seq<Option<Seq<char>>>>,
    at: Seq<int>,
    other: Seq<Seq<Option<Seq<char>>>>,
    other_at: Seq<int>,
    i: int,
) -> (r: (int, Seq<char>, Seq<char>, Seq<char>))
    requires
        is_familiar_text(text),
        captured_at(text, found, at),
        captured_at(text, other, other_at),
        0 <= i < found.len(),
    ensures
        0 <= r.0 < other.len(),
        other_at[r.0] == at[i],
        found_at(text, found[i], at[i], r.1, r.2),
        found_at(text, other[r.0], at[i], r.1, r.3),
        r.2.len() <= r.3.len(),
{
    let (tag, id) = choose|tag: Seq<char>, id: Seq<char>| found_at(text, found[i], at[i], tag, id);
    assert(found_at(text, found[i], at[i], tag, id));
    assert(embed_at(text, at[i], tag, id));
    let (k, long) = choose|k: int, long: Seq<char>|
        {
            &&& 0 <= k < other.len()
            &&& other_at[k] == at[i]
            &&& id.len() <= long.len()
            &&& #[trigger] found_at(text, other[k], at[i], tag, long)
        };
    (k, tag, id, long)
}

/// The links that are captured from a text of ASCII and white space are determined by it: there is
/// only one list of embeds that stand in it in order, each with the longest id that fits.
pub proof fn captures_are_determined(
    text: Seq<char>,
    found: Seq<Seq<Option<Seq<char>>>>,
    other: Seq<Seq<Option<Seq<char>>>>,
)
    requires
        is_familiar_text(text),
        are_captures(text, found),
        are_captures(text, other),
    ensures
        match_links(found) == match_links(other),
{
    let at = choose|at: Seq<int>| captured_at(text, found, at);
    let other_at = choose|other_at: Seq<int>| captured_at(text, other, other_at);
    assert forall|i: int| 0 <= i < at.len() implies other_at.contains(#[trigger] at[i]) by {
        let r = place_is_shared(text, found, at, other, other_at, i);
        assert(other_at[r.0] == at[i]);
    }
    assert forall|i: int| 0 <= i < other_at.len() implies at.contains(#[trigger] other_at[i]) by {
        let r = place_is_shared(text, other, other_at, found, at, i);
        assert(at[r.0] == other_at[i]);
    }
    ascending_is_unique(at, other_at);
    assert forall|i: int| 0 <= i < found.len() implies match_links(found)[i] == match_links(
        other,
    )[i] by {
        let (k, tag, id, long) = place_is_shared(text, found, at, other, other_at, i);
        let (m, other_tag, other_id, other_long) = place_is_shared(
            text,
            other,
            other_at,
            found,
            at,
            i,
        );
        assert(k == i && m == i);
        assert(id.len() == long.len());
        let link = link_text(tag, id);
        let same = link_text(tag, long);
        assert(link =~= same);
        assert(id =~= link.skip(tag.len() as int + 1));
        assert(long =~= same.skip(tag.len() as int + 1));
    }
    assert(match_links(found) =~= match_links(other));
}

} // verus!
