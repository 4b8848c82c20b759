use dgg_embeds::embed::{kind, read_link, Kind};
use dgg_embeds::links::{capture_links, drop_repeats, links_of};
use dgg_embeds::text::{chars_of, contains_text, same_text, split_char, split_once};

fn captured(text: &str) -> Vec<String> {
    capture_links(text)
}

#[test]
fn splits_at_the_first_space() {
    assert_eq!(split_once("MSG {\"a\": 1}"), ("MSG", "{\"a\": 1}"));
    assert_eq!(split_once("a b c"), ("a", "b c"));
    assert_eq!(split_once(" x"), ("", "x"));
    assert_eq!(split_once("x "), ("x", ""));
    assert_eq!(split_once("für wen"), ("für", "wen"));
}

#[test]
fn splits_at_a_character() {
    assert_eq!(split_char("a/b/c", '/'), Some(("a", "b/c")));
    assert_eq!(split_char("abc", '/'), None);
    assert_eq!(split_char("", '/'), None);
}

#[test]
fn compares_and_searches_texts() {
    assert_eq!(chars_of("aé"), vec!['a', 'é']);
    assert!(same_text("abc", "abc"));
    assert!(!same_text("abc", "abd"));
    assert!(contains_text("https://strims.gg/x", "strims.gg"));
    assert!(contains_text("aaab", "aab"));
    assert!(contains_text("abc", ""));
    assert!(!contains_text("strims", "strims.gg"));
    assert!(!contains_text("strimsXgg", "strims.gg"));
}

#[test]
fn captures_every_platform() {
    assert_eq!(captured("#twitch/Destiny"), vec!["#twitch/Destiny"]);
    assert_eq!(captured("look #twitch-vod/1234567"), vec!["#twitch-vod/1234567"]);
    assert_eq!(captured("#twitch-clip/Some-Clip_1 lol"), vec!["#twitch-clip/Some-Clip_1"]);
    assert_eq!(captured("\t#youtube/dQw4w9WgXcQ"), vec!["#youtube/dQw4w9WgXcQ"]);
    assert_eq!(captured("strims.gg/angelthump/abc"), vec!["strims.gg/angelthump/abc"]);
}

#[test]
fn strims_links_lose_their_scheme() {
    assert_eq!(captured("https://strims.gg/angelthump/abc"), vec!["strims.gg/angelthump/abc"]);
    assert_eq!(captured("http://strims.gg/angelthump/abc"), vec!["strims.gg/angelthump/abc"]);
}

#[test]
fn captures_nothing_else() {
    assert!(captured("").is_empty());
    assert!(captured("just talking").is_empty());
    assert!(captured("x#twitch/abc").is_empty());
    assert!(captured("#twitch/ab").is_empty());
    assert!(captured("#twitch-x/abc").is_empty());
    assert!(captured("#kick/abc").is_empty());
    assert!(captured("ftp://strims.gg/angelthump/abc").is_empty());
    assert!(captured("strimsXgg/angelthump/abc").is_empty());
}

#[test]
fn ids_end_at_a_word_boundary() {
    assert_eq!(captured("#twitch/abc-"), vec!["#twitch/abc"]);
    assert_eq!(captured("#twitch/abc!"), vec!["#twitch/abc"]);
    assert_eq!(captured("#twitch/abc[d"), vec!["#twitch/abc[d"]);
    let long = "a".repeat(64);
    assert_eq!(captured(&format!("#twitch/{}", long)), vec![format!("#twitch/{}", long)]);
    assert!(captured(&format!("#twitch/{}a", long)).is_empty());
    assert_eq!(captured(&format!("#twitch/abcd-{}", long)), vec!["#twitch/abcd-"]);
}

fn is_word(c: char) -> bool {
    c.is_ascii_alphanumeric() || c == '_'
}

fn is_space(c: char) -> bool {
    matches!(
        c,
        '\t'..='\r'
            | ' '
            | '\u{85}'
            | '\u{a0}'
            | '\u{1680}'
            | '\u{2000}'..='\u{200a}'
            | '\u{2028}'
            | '\u{2029}'
            | '\u{202f}'
            | '\u{205f}'
            | '\u{3000}'
    )
}

/// The longest embed that stands in a text of ASCII and white space at a position, if there is one.
fn embed_at(text: &[char], at: usize) -> Option<(&'static str, String)> {
    let tags = [
        "#twitch",
        "#twitch-vod",
        "#twitch-clip",
        "#youtube",
        "https://strims.gg/angelthump",
        "http://strims.gg/angelthump",
        "strims.gg/angelthump",
    ];
    if at > 0 && !is_space(text[at - 1]) {
        return None;
    }
    let rest: String = text[at..].iter().collect();
    for tag in tags {
        if let Some(behind) = rest.strip_prefix(tag).and_then(|r| r.strip_prefix('/')) {
            let behind: Vec<char> = behind.chars().collect();
            for n in (3..=64).rev() {
                let fits = n <= behind.len()
                    && behind[..n].iter().all(|&c| {
                        ('A'..='z').contains(&c) || c.is_ascii_digit() || c == '_' || c == '-'
                    })
                    && is_word(behind[n - 1]) != (n < behind.len() && is_word(behind[n]));
                if fits {
                    return Some((tag, behind[..n].iter().collect()));
                }
            }
        }
    }
    None
}

#[test]
fn captures_what_stands_in_the_text_and_nothing_else() {
    let pieces = [
        "#twitch", "#twitch-vod", "#twitch-clip", "#youtube", "https://", "http://", "strims.gg",
        "/angelthump", "/", "/", "/abc", "/a_b-c", "ab", "-", "[", " ", " ", " ", "\n", "\u{b}",
        "\u{85}", "\u{a0}", "\u{2003}", "\u{3000}", "!", "0123456789", "aaaaaaaaaaaaaaaaaaaaaaaaaaaaaaaaaaaaaaaaaaaaaaaaaaaaaaaaaaa", ".",
    ];
    let mut seed: u64 = 12345;
    let mut matched: usize = 0;
    for _ in 0..3000 {
        let mut text = String::new();
        for _ in 0..12 {
            seed = seed.wrapping_mul(6364136223846793005).wrapping_add(1442695040888963407);
            text.push_str(pieces[(seed >> 33) as usize % pieces.len()]);
        }
        let chars: Vec<char> = text.chars().collect();
        let mut expected: Vec<String> = Vec::new();
        for at in 0..chars.len() {
            if let Some((tag, id)) = embed_at(&chars, at) {
                let link = match tag.find("strims.gg") {
                    Some(host) => format!("{}/{}", &tag[host..], id),
                    None => format!("{}/{}", tag, id),
                };
                expected.push(link);
            }
        }
        expected.dedup();
        matched += expected.len();
        assert_eq!(captured(&text), expected, "{:?}", text);
    }
    assert!(matched > 50);
}

#[test]
fn all_white_space_can_stand_around_an_embed() {
    let spaces = (0..=0x10ffff).filter_map(char::from_u32).filter(|&c| is_space(c));
    let mut n: usize = 0;
    for c in spaces {
        n += 1;
        assert_eq!(captured(&format!("x{}#twitch/abc{}#youtube/def{}", c, c, c)), vec![
            "#twitch/abc",
            "#youtube/def"
        ]);
    }
    assert_eq!(n, 25);
    assert!(captured("\u{200b}#twitch/abc").is_empty());
    assert!(captured("\u{180e}#twitch/abc").is_empty());
}

#[test]
fn captures_all_embeds_in_their_order() {
    assert_eq!(
        captured("#twitch/abc #youtube/def\n#twitch/ghi"),
        vec!["#twitch/abc", "#youtube/def", "#twitch/ghi"]
    );
    assert_eq!(captured("été\u{3000}#twitch/abc"), vec!["#twitch/abc"]);
}

#[test]
fn repeats_are_left_out_only_side_by_side() {
    assert_eq!(
        captured("#twitch/abc #twitch/abc #youtube/def #twitch/abc"),
        vec!["#twitch/abc", "#youtube/def", "#twitch/abc"]
    );
    assert_eq!(captured("#twitch/abc #twitch/ABC"), vec!["#twitch/abc", "#twitch/ABC"]);
    assert_eq!(
        captured("https://strims.gg/angelthump/abc strims.gg/angelthump/abc"),
        vec!["strims.gg/angelthump/abc"]
    );
    assert!(drop_repeats(vec![]).is_empty());
    let links = vec!["a".to_string(), "a".to_string(), "a".to_string(), "b".to_string()];
    assert_eq!(drop_repeats(links), vec!["a", "b"]);
}

#[test]
fn links_are_taken_from_matches() {
    let text = |s: &str| Some(s.to_string());
    let plain = vec![text(" #twitch/abc"), text(" "), text("#twitch/abc")];
    let strims = vec![
        text("https://strims.gg/angelthump/abc"),
        text(""),
        text("https://strims.gg/angelthump/abc"),
        None,
        text("abc"),
    ];
    assert_eq!(links_of(&vec![plain, strims]), vec!["#twitch/abc", "strims.gg/angelthump/abc"]);
}

#[test]
fn reads_links() {
    let embed = read_link("#twitch-vod/123");
    assert_eq!(embed.link, "#twitch-vod/123");
    assert_eq!(embed.platform, "twitch-vod");
    assert_eq!(embed.channel, "123");
    let embed = read_link("strims.gg/angelthump/abc");
    assert_eq!(embed.platform, "strims.gg");
    assert_eq!(embed.channel, "angelthump/abc");
}

#[test]
fn tells_where_to_ask() {
    assert_eq!(kind("twitch"), Kind::Stream);
    assert_eq!(kind("twitch-vod"), Kind::Video);
    assert_eq!(kind("twitch-clip"), Kind::Clip);
    assert_eq!(kind("youtube"), Kind::Youtube);
    assert_eq!(kind("strims.gg"), Kind::Unasked);
    assert_eq!(kind("Twitch"), Kind::Unasked);
}
