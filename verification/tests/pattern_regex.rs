//! The hand-written patterns, run side by side with the `regex` crate on the
//! same texts: the first match, whether there is one, and `replace_all`.
use regex::Regex;
use tune_manager::linter::pattern::{find_from, has_feat_token_exec, is_match_exec, replace_all_exec, Pattern};

const PATTERNS: [(Pattern, &str); 9] = [
    (Pattern::SpaceBeforeComma, r"\s+,"),
    (Pattern::DoubleSpace, r"\s{2,}"),
    (Pattern::DoubledComma, r",\s*,"),
    (Pattern::DoubledAmp, r"&\s*&"),
    (Pattern::NonCanonSeparator, r"(?i)\s(and|vs\.|versus)\s"),
    (Pattern::FeatVariant, r"(?i)\s(featuring|feat\.?|ft\.?)\s"),
    (Pattern::OriginalMix, r"(?i)\s*\(original mix\)\s*"),
    (Pattern::MixSuffix, r"(?i)\(([^\)]*?)\s(remix|edit|mix|version)\)"),
    (Pattern::RemixArtist, r"(?i)\(([^\)]+?)\s+remix\)"),
];

const TEXTS: [&str; 40] = [
    "",
    " ",
    "A",
    "A , B",
    "A  ,  B",
    "A\u{a0},B",
    "A\u{2003}\u{2003}B",
    "A\t\nB",
    ",, A",
    "A , , B",
    "A ,\u{3000}, B",
    "A & & B",
    "A&&B",
    "A &\u{85}& B",
    "A and B",
    "A AND B",
    "Band and Bandit",
    "A vs. B",
    "A vs B",
    "A VS. B",
    "A v\u{17f}. B",
    "A ver\u{17f}us B",
    "A versus B and C",
    "A feat. B",
    "A feat B",
    "A FEATURING B",
    "A ft. B feat. C",
    "A Ft. B",
    "A ft B",
    "Afeat. B",
    "Title (Original Mix)",
    "Title  (original mix)  ",
    "(ORIGINAL MIX) Title",
    "Title (Artist Remix)",
    "Title (Some Artist remix) (Other Edit)",
    "Title ( Remix)",
    "Title (A  Remix) x",
    "Title (Extended Mix) (B Version)",
    "Title ((A) Remix)",
    "Song (Dj \u{212a}ool Remix)",
];

fn chars(s: &str) -> Vec<char> {
    s.chars().collect()
}

fn char_index(s: &str, byte: usize) -> usize {
    s[..byte].chars().count()
}

#[test]
fn first_match_agrees_with_regex() {
    for (pat, re) in PATTERNS {
        let re = Regex::new(re).unwrap();
        for text in TEXTS {
            let expected = re
                .find(text)
                .map(|m| (char_index(text, m.start()), char_index(text, m.end())));
            assert_eq!(find_from(pat, &chars(text), 0), expected, "{pat:?} on {text:?}");
            assert_eq!(is_match_exec(pat, &chars(text)), re.is_match(text), "{pat:?} on {text:?}");
        }
    }
}

#[test]
fn replace_all_agrees_with_regex() {
    let fixed: [(Pattern, &str, &str); 6] = [
        (Pattern::SpaceBeforeComma, r"\s+,", ","),
        (Pattern::DoubleSpace, r"\s{2,}", " "),
        (Pattern::DoubledComma, r",\s*,", ","),
        (Pattern::DoubledAmp, r"&\s*&", "&"),
        (Pattern::FeatVariant, r"(?i)\s(featuring|feat\.?|ft\.?)\s", " Ft. "),
        (Pattern::OriginalMix, r"(?i)\s*\(original mix\)\s*", " "),
    ];
    for (pat, re, rep) in fixed {
        let re = Regex::new(re).unwrap();
        for text in TEXTS {
            let expected: Vec<char> = re.replace_all(text, rep).chars().collect();
            assert_eq!(replace_all_exec(pat, &chars(text)), expected, "{pat:?} on {text:?}");
        }
    }
}

#[test]
fn featuring_word_agrees_with_regex() {
    let re = Regex::new(r"(?i)\b(feat\.?|featuring|ft\.?)\b").unwrap();
    let more = ["Afeat B", "feat", "x ft", "Ft.", "A (feat. B)", "Daft Punk", "Loft.x", "\u{e9}ft"];
    for text in TEXTS.iter().chain(more.iter()) {
        assert_eq!(has_feat_token_exec(&chars(text)), re.is_match(text), "{text:?}");
    }
}
