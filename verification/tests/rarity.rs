use werlen::Rarity;

const TIERS: [Rarity; 5] =
    [Rarity::Common, Rarity::Uncommon, Rarity::Rare, Rarity::VeryRare, Rarity::Legendary];

#[test]
fn tiers_are_ranked_from_common_to_legendary() {
    assert_eq!(Rarity::Common.tier(), 0);
    assert_eq!(Rarity::Uncommon.tier(), 1);
    assert_eq!(Rarity::Rare.tier(), 2);
    assert_eq!(Rarity::VeryRare.tier(), 3);
    assert_eq!(Rarity::Legendary.tier(), 4);
}

#[test]
fn is_below_is_strict() {
    for (i, a) in TIERS.iter().enumerate() {
        for (j, b) in TIERS.iter().enumerate() {
            assert_eq!(a.is_below(*b), i < j, "{:?} {:?}", a, b);
        }
    }
}

#[test]
fn comparison_operators_follow_the_ranks() {
    for (i, a) in TIERS.iter().enumerate() {
        for (j, b) in TIERS.iter().enumerate() {
            assert_eq!(a < b, i < j);
            assert_eq!(a <= b, i <= j);
            assert_eq!(a == b, i == j);
            assert_eq!(a.partial_cmp(b), Some(i.cmp(&j)));
            assert_eq!(a.cmp(b), i.cmp(&j));
        }
    }
    assert!(Rarity::Common < Rarity::Uncommon);
    assert!(Rarity::VeryRare < Rarity::Legendary);
}

#[test]
fn default_tier_is_common() {
    assert_eq!(Rarity::default(), Rarity::Common);
}

#[test]
fn labels_are_the_display_names() {
    assert_eq!(Rarity::Common.label(), "Common");
    assert_eq!(Rarity::Uncommon.label(), "Uncommon");
    assert_eq!(Rarity::Rare.label(), "Rare");
    assert_eq!(Rarity::VeryRare.label(), "Very Rare");
    assert_eq!(Rarity::Legendary.label(), "Legendary");
}

#[test]
fn from_name_reads_each_tier_in_any_case() {
    assert_eq!(Rarity::from_name("common"), Rarity::Common);
    assert_eq!(Rarity::from_name("uncommon"), Rarity::Uncommon);
    assert_eq!(Rarity::from_name("rare"), Rarity::Rare);
    assert_eq!(Rarity::from_name("very rare"), Rarity::VeryRare);
    assert_eq!(Rarity::from_name("legendary"), Rarity::Legendary);
    assert_eq!(Rarity::from_name("Legendary"), Rarity::Legendary);
    assert_eq!(Rarity::from_name("VERY RARE"), Rarity::VeryRare);
    assert_eq!(Rarity::from_name("uNcOmMoN"), Rarity::Uncommon);
}

#[test]
fn from_name_falls_back_to_common() {
    assert_eq!(Rarity::from_name(""), Rarity::Common);
    assert_eq!(Rarity::from_name("epic"), Rarity::Common);
    assert_eq!(Rarity::from_name("veryrare"), Rarity::Common);
    assert_eq!(Rarity::from_name("very  rare"), Rarity::Common);
    assert_eq!(Rarity::from_name(" rare"), Rarity::Common);
    assert_eq!(Rarity::from_name("rare!"), Rarity::Common);
    assert_eq!(Rarity::from_name("legendäry"), Rarity::Common);
}

#[test]
fn from_name_reads_back_every_label() {
    for tier in TIERS {
        assert_eq!(Rarity::from_name(tier.label()), tier);
    }
}

#[test]
fn from_name_agrees_with_matching_the_lower_case_text() {
    let samples = [
        "Common", "UNCOMMON", "Rare", "Very Rare", "LEGENDARY", "ſ", "RARE\u{212a}", "İ",
        "legendary ", "Ünique", "",
    ];
    for sample in samples {
        let expected = match sample.to_lowercase().as_str() {
            "common" => Rarity::Common,
            "uncommon" => Rarity::Uncommon,
            "rare" => Rarity::Rare,
            "very rare" => Rarity::VeryRare,
            "legendary" => Rarity::Legendary,
            _ => Rarity::Common,
        };
        assert_eq!(Rarity::from_name(sample), expected, "{:?}", sample);
    }
}

#[test]
fn no_character_outside_ascii_lowers_into_a_tier_name() {
    let letters = "common uncommon rare very rare legendary";
    let mut c = '\u{80}';
    loop {
        let lowered: String = c.to_lowercase().collect();
        assert!(!lowered.is_empty());
        assert!(!lowered.chars().all(|l| letters.contains(l)), "{:?}", c);
        if c == char::MAX {
            break;
        }
        c = match char::from_u32(c as u32 + 1) {
            Some(next) => next,
            None => '\u{e000}',
        };
    }
}
